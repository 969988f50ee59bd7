use kobo::builder::ScreenBuilder;
use kobo::command::Command;
use kobo::context::{Context, DisplayMetrics};
use kobo::device::{AudioSource, DeviceRequest, DeviceResult, LogLevel};
use kobo::handles::cache_key;
use kobo::limits::{CACHE_PREFIX, MAX_FONT_BYTES, MAX_PICTURE_BYTES};
use kobo::picture::{PictureFormat, PicturePixels};
use kobo::runner::{AppRunner, KoboApp, TextHit};
use kobo::session::{Delivery, Session, CALLBACK_DEADLINE};
use kobo::shell::ShellRequest;
use kobo::span::Span;
use kobo::store::{is_cache_key, is_valid_key, Lifecycle, StoreRequest, StoreResult};
use kobo::task::{Header, Task, TaskId, TaskOutcome};
use kobo::ui::{
    ActionId, ControlState, Emphasis, FontHandle, Node, NodeId, PictureHandle, Screen, TextScale,
    TilePicture,
};
use std::time::{Duration, Instant};

struct Updater;

impl KoboApp for Updater {
    fn on_start(&mut self, context: &mut Context) {
        let good_digest = "a".repeat(64);
        assert!(
            !context
                .device()
                .update("http://plain.example", &good_digest),
            "an update must not travel over plain HTTP"
        );
        assert!(
            !context.device().update("https://good.example", "DEADBEEF"),
            "a string that is not a digest can never match a download"
        );
        assert!(context
            .device()
            .update("https://good.example", &good_digest));
    }

    fn on_action(&mut self, _context: &mut Context, _action: ActionId) {}
}

#[test]
fn an_update_that_could_not_possibly_verify_is_refused_before_the_wire() {
    let queued = AppRunner::new(Updater)
        .start()
        .into_iter()
        .filter(|command| matches!(command, Command::Device(DeviceRequest::Update { .. })))
        .count();
    assert_eq!(queued, 1, "only the well-formed request may be queued");
}

#[test]
fn app_store_link_helpers_queue_device_requests() {
    let mut context = Context::default();
    {
        let mut store = context.store();
        store.begin_link();
        store.read_link();
        store.poll_link();
        store.disconnect_link();
    }
    assert_eq!(
        context.take_commands(),
        vec![
            Command::Device(DeviceRequest::BeginAppLink),
            Command::Device(DeviceRequest::ReadAppLink),
            Command::Device(DeviceRequest::PollAppLink),
            Command::Device(DeviceRequest::DisconnectAppLink),
        ]
    );
}

#[derive(Default)]
struct Counter {
    received: u64,
}

impl KoboApp for Counter {
    fn on_start(&mut self, context: &mut Context) {
        self.paint(context);
    }

    fn on_action(&mut self, context: &mut Context, _action: ActionId) {
        self.paint(context);
    }
}

impl Counter {
    fn paint(&self, context: &mut Context) {
        context.set_screen(
            ScreenBuilder::new("counter")
                .transfer("Downloading", self.received, Some(11_534_336))
                .build(),
        );
    }
}

fn screens(commands: &[Command]) -> usize {
    commands
        .iter()
        .filter(|command| matches!(command, Command::SetScreen(_)))
        .count()
}

#[test]
fn a_screen_identical_to_the_one_showing_is_not_sent_again() {
    let mut runner = AppRunner::new(Counter::default());
    assert_eq!(screens(&runner.start()), 1, "the first screen always goes");
    assert_eq!(
        screens(&runner.action(ActionId(1))),
        0,
        "an unchanged screen costs the wire, the renderer and the panel nothing"
    );
    runner.app_mut().received = 4_404_019;
    assert_eq!(
        screens(&runner.action(ActionId(1))),
        1,
        "a transfer that has moved must still repaint"
    );
}

#[test]
fn a_screen_is_sent_again_after_somebody_else_had_the_panel() {
    let mut runner = AppRunner::new(Counter::default());
    assert_eq!(screens(&runner.start()), 1);
    assert_eq!(screens(&runner.lifecycle(Lifecycle::Background)), 0);
    assert_eq!(screens(&runner.lifecycle(Lifecycle::Foreground)), 0);
    assert_eq!(screens(&runner.action(ActionId(1))), 1);
    assert_eq!(screens(&runner.action(ActionId(1))), 0);
    runner.forget_displayed();
    assert_eq!(screens(&runner.action(ActionId(1))), 1);
}

#[test]
fn put_picture_keeps_rgb_pixels_typed_in_the_command() {
    let mut context = Context::default();
    assert_eq!(
        context.put_picture(
            PictureHandle(3),
            2,
            1,
            PicturePixels::Rgb8(vec![1, 2, 3, 4, 5, 6]),
        ),
        Some(TilePicture::new(PictureHandle(3), 2, 1))
    );
    assert!(matches!(
        context.commands(),
        [Command::PutPicture {
            handle: PictureHandle(3),
            width: 2,
            height: 1,
            pixels: PicturePixels::Rgb8(bytes),
        }] if bytes == &[1, 2, 3, 4, 5, 6]
    ));
}

#[test]
fn put_picture_refuses_wrong_typed_lengths_and_the_byte_budget() {
    let mut context = Context::default();
    assert_eq!(
        context.put_picture(
            PictureHandle(3),
            2,
            1,
            PicturePixels::Rgb8(vec![1, 2, 3, 4, 5]),
        ),
        None
    );
    let width = u32::try_from(MAX_PICTURE_BYTES + 1).expect("picture bound fits u32");
    assert_eq!(
        context.put_picture(
            PictureHandle(3),
            width,
            1,
            PicturePixels::Gray8(vec![0; MAX_PICTURE_BYTES + 1]),
        ),
        None
    );
    assert!(context.commands().is_empty());
}

#[test]
fn a_picture_of_nothing_is_refused() {
    let mut context = Context::default();
    assert_eq!(
        context.put_picture(PictureHandle(3), 0, 9, PicturePixels::Gray8(Vec::new())),
        None
    );
    assert!(context.commands().is_empty());
}

#[derive(Default)]
struct Plate {
    filled: bool,
}

impl KoboApp for Plate {
    fn on_start(&mut self, context: &mut Context) {
        Self::paint(context);
    }

    fn on_action(&mut self, context: &mut Context, _action: ActionId) {
        if !self.filled {
            self.filled = true;
            let _ = context.put_picture(
                PictureHandle(1),
                2,
                2,
                PicturePixels::Gray8(vec![0, 1, 2, 3]),
            );
        }
        Self::paint(context);
    }
}

impl Plate {
    fn paint(context: &mut Context) {
        context.set_screen(ScreenBuilder::new("plate").text("A plate.").build());
    }
}

#[test]
fn pixels_handed_over_after_the_screen_that_names_them_still_reach_the_panel() {
    let mut runner = AppRunner::new(Plate::default());
    assert_eq!(screens(&runner.start()), 1, "the first screen always goes");
    assert_eq!(
        screens(&runner.action(ActionId(1))),
        1,
        "the plate was handed over and the page was never redrawn to show it"
    );
    assert_eq!(
        screens(&runner.action(ActionId(1))),
        0,
        "an unchanged screen with no new pixels still costs nothing"
    );
}

struct Example;

impl KoboApp for Example {
    fn on_start(&mut self, context: &mut Context) {
        context.set_screen(Screen::new(
            1,
            vec![Node::Button {
                id: NodeId(1),
                action: ActionId(1),
                label: "Tap".into(),
                state: ControlState::Enabled,
                emphasis: Emphasis::Normal,
            }],
        ));
    }

    fn on_action(&mut self, context: &mut Context, action: ActionId) {
        context.log(LogLevel::Info, &format!("action {}", action.0));
    }
}

#[test]
fn runner_collects_lifecycle_commands() {
    let mut runner = AppRunner::new(Example);
    assert!(matches!(runner.start().as_slice(), [Command::SetScreen(_)]));
    assert!(runner.start().is_empty());
    assert!(matches!(
        runner.action(ActionId(9)).as_slice(),
        [Command::Log { .. }]
    ));
}

#[test]
fn a_held_word_is_an_action_for_an_application_that_says_nothing_of_words() {
    let mut runner = AppRunner::new(Example);
    let hit = TextHit {
        context: 7,
        start: 3,
        end: 9,
    };
    let commands = runner.text_hold(ActionId(9), hit);
    assert_eq!(
        commands,
        vec![Command::Log {
            level: LogLevel::Info,
            message: "action 9".into(),
        }]
    );
}

struct Loader;

impl KoboApp for Loader {
    fn on_start(&mut self, context: &mut Context) {
        context.store().load("items");
    }

    fn on_action(&mut self, _context: &mut Context, _action: ActionId) {}
}

#[test]
fn an_unanswered_store_request_keeps_an_application_from_leaving() {
    let mut runner = AppRunner::new(Loader);
    assert!(matches!(runner.start().as_slice(), [Command::Store(_)]));
    assert_eq!(runner.outstanding_requests(), 0);
    assert_eq!(runner.outstanding_answers(), 1);
    assert!(runner.is_owed_answers());
    runner.store_result(StoreResult::Loaded {
        key: "items".into(),
        value: None,
    });
    assert_eq!(runner.outstanding_answers(), 0);
    assert!(!runner.is_owed_answers());
}

#[derive(Default)]
struct Asker {
    heard: Vec<DeviceRequest>,
}

impl KoboApp for Asker {
    fn on_start(&mut self, context: &mut Context) {
        context.device().read_battery();
        context.device().set_frontlight(240);
    }

    fn on_action(&mut self, _context: &mut Context, _action: ActionId) {}

    fn on_device_result(
        &mut self,
        _context: &mut Context,
        request: DeviceRequest,
        _result: DeviceResult,
    ) {
        self.heard.push(request);
    }
}

#[test]
fn device_answers_are_matched_to_requests_in_order() {
    let mut runner = AppRunner::new(Asker::default());
    runner.start();
    assert_eq!(runner.outstanding_requests(), 2);
    runner.device_result(DeviceResult::Done);
    runner.device_result(DeviceResult::Done);
    assert!(runner.device_result(DeviceResult::Done).is_empty());
    assert_eq!(
        runner.app().heard,
        vec![
            DeviceRequest::ReadBattery,
            DeviceRequest::SetFrontlight { percent: 100 },
        ]
    );
}

struct Slow;

impl KoboApp for Slow {
    fn on_start(&mut self, _context: &mut Context) {
        let begun = Instant::now();
        while begun.elapsed() < Duration::from_millis(CALLBACK_DEADLINE + 60) {}
    }

    fn on_action(&mut self, _context: &mut Context, _action: ActionId) {}
}

#[test]
fn a_callback_that_overruns_the_deadline_is_reported() {
    let commands = AppRunner::new(Slow).start();
    assert!(matches!(
        commands.first(),
        Some(Command::Log {
            level: LogLevel::Warn,
            message,
        }) if message.contains("deadline")
    ));
}

#[test]
fn an_overrun_says_how_long_it_was() {
    let mut session = Session::new(DisplayMetrics::default());
    let context = session.open();
    let commands = session.conclude(context, 1_234_567_890);
    assert_eq!(
        commands,
        vec![Command::Log {
            level: LogLevel::Warn,
            message: "a lifecycle callback ran for 1234 ms, over the 250 ms deadline; move this \
                      work to Context::spawn"
                .into(),
        }]
    );
    let context = session.open();
    assert!(session.conclude(context, 250_000_000).is_empty());
    let context = session.open();
    assert_eq!(session.conclude(context, 250_000_001).len(), 1);
}

#[test]
fn requests_that_could_not_be_honoured_are_not_queued() {
    let mut context = Context::default();
    assert!(!context.device().pair_bluetooth("AA:BB:CC:DD:EE"));
    assert!(!context.device().pair_bluetooth("AA:BB:CC:DD:EE:F"));
    assert!(!context.device().pair_bluetooth("AA:BB:CC:DD:EE:FG"));
    assert!(!context.device().connect_bluetooth("AA:BB:CC:DD:EE:FF:"));
    assert!(!context.device().join_wifi("", "password"));
    assert!(!context.device().join_wifi("home", "short"));
    assert!(!context.device().join_wifi("home", &"p".repeat(64)));
    assert!(!context.device().load_shelf_audio("../song"));
    assert!(!context.device().load_audio_stream("http://plain.example"));
    assert!(!context.device().lookup_word("  ", None));
    assert!(!context.device().lookup_word("word", Some("en_GB")));
    assert!(!context.applications().install("Not-An-Id"));
    assert!(!context.applications().uninstall("-notes"));
    assert!(context.commands().is_empty());

    assert!(context.device().forget_bluetooth("aA:0b:CC:DD:EE:FF"));
    assert!(context.device().join_wifi("home", ""));
    assert!(context.device().load_shelf_audio("song.ogg"));
    assert!(context.device().lookup_word("word", Some("en-GB")));
    assert!(context.applications().install("notes"));
    assert_eq!(
        context.take_commands(),
        vec![
            Command::Device(DeviceRequest::ForgetBluetooth {
                address: "aA:0b:CC:DD:EE:FF".into(),
            }),
            Command::Device(DeviceRequest::JoinWifi {
                ssid: "home".into(),
                password: String::new(),
            }),
            Command::Device(DeviceRequest::LoadAudio {
                source: AudioSource::Shelf("song.ogg".into()),
            }),
            Command::Device(DeviceRequest::LookupWord {
                word: "word".into(),
                language: Some("en-GB".into()),
            }),
            Command::Device(DeviceRequest::InstallApp { id: "notes".into() }),
        ]
    );
}

#[test]
fn a_request_for_part_of_a_second_asks_for_one() {
    let mut context = Context::default();
    context.device().hold_wifi(Span::from_millis(1));
    context.device().keep_awake(Span::from_secs(0));
    context.device().schedule_wake(Span::from_millis(2_999));
    context.device().schedule_wake(Span::from_secs(1 << 40));
    context.device().seek_audio(Span::from_millis(61_500));
    context.device().seek_audio(Span::from_secs(1 << 40));
    assert_eq!(
        context.take_commands(),
        vec![
            Command::Device(DeviceRequest::HoldWifi { seconds: 1 }),
            Command::Device(DeviceRequest::KeepAwake { seconds: 0 }),
            Command::Device(DeviceRequest::ScheduleWake { seconds: 2 }),
            Command::Device(DeviceRequest::ScheduleWake { seconds: u32::MAX }),
            Command::Device(DeviceRequest::SeekAudio { position_ms: 61_500 }),
            Command::Device(DeviceRequest::SeekAudio {
                position_ms: u32::MAX,
            }),
        ]
    );
}

#[test]
fn cached_things_are_kept_under_keys_of_their_own() {
    assert_eq!(cache_key("cover.42"), format!("{CACHE_PREFIX}cover.42"));
    assert!(is_cache_key(&cache_key("cover.42")));
    assert!(is_valid_key(&cache_key("cover.42")));
    let mut context = Context::default();
    context.store().cache("cover.42", vec![1, 2]);
    context.store().load_cached("cover.42");
    context.store().save("position", b"12".to_vec());
    context.store().forget("position");
    context.store().list();
    assert_eq!(
        context.take_commands(),
        vec![
            Command::Store(StoreRequest::Save {
                key: "cache.cover.42".into(),
                value: vec![1, 2],
            }),
            Command::Store(StoreRequest::Load {
                key: "cache.cover.42".into(),
            }),
            Command::Store(StoreRequest::Save {
                key: "position".into(),
                value: b"12".to_vec(),
            }),
            Command::Store(StoreRequest::Forget {
                key: "position".into(),
            }),
            Command::Store(StoreRequest::List),
        ]
    );
}

#[test]
fn a_terminal_is_asked_for_in_the_words_it_understands() {
    let mut context = Context::default();
    context.shell().open(80, 24);
    context.shell().input(b"ls\n".to_vec());
    context.shell().resize(60, 20);
    context.shell().close();
    assert_eq!(
        context.take_commands(),
        vec![
            Command::Shell(ShellRequest::Open {
                columns: 80,
                rows: 24,
            }),
            Command::Shell(ShellRequest::Input(b"ls\n".to_vec())),
            Command::Shell(ShellRequest::Resize {
                columns: 60,
                rows: 20,
            }),
            Command::Shell(ShellRequest::Close),
        ]
    );
}

#[test]
fn a_font_is_refused_when_empty_too_large_or_no_face() {
    let mut context = Context::default();
    assert_eq!(context.put_font(FontHandle(2), "Serif", Vec::new(), true), None);
    assert_eq!(
        context.put_font(FontHandle(2), "Serif", vec![0; MAX_FONT_BYTES + 1], true),
        None
    );
    assert_eq!(
        context.put_font(FontHandle(2), "Serif", vec![0; 4], false),
        None
    );
    assert!(context.commands().is_empty());
    assert_eq!(
        context.put_font(FontHandle(2), "Serif", vec![0; 4], true),
        Some(FontHandle(2))
    );
    context.drop_font(FontHandle(2));
    context.drop_picture(PictureHandle(4));
    context.launch("notes");
    context.exit();
    assert_eq!(context.commands().len(), 5);
}

#[test]
fn a_panel_keeps_its_size_when_the_text_grows() {
    let context = Context::default();
    let larger = context.metrics_at(TextScale::ExtraLarge);
    assert_eq!(larger.width, 1072);
    assert_eq!(larger.height, 1448);
    assert_eq!(larger.text_scale, TextScale::ExtraLarge);
    assert_eq!(
        context.metrics(),
        DisplayMetrics {
            picture_format: PictureFormat::Gray8,
            ..DisplayMetrics::default()
        }
    );
}

#[test]
fn work_that_could_not_be_sent_is_refused() {
    let mut context = Context::default();
    let broken = Task::Fetch {
        url: "https://good.example".into(),
        offset: 0,
        max_bytes: 16,
        credential: None,
        headers: vec![Header::new("Not a token", "value")],
    };
    assert_eq!(context.spawn(broken.clone()), None);
    assert_eq!(context.spawn_retrying(broken), None);
    assert_eq!(context.tasks_in_flight(), 0);
    assert_eq!(context.spawn(Task::Sleep { seconds: 1 }), Some(TaskId(1)));
    assert_eq!(context.tasks_in_flight(), 1);
}

#[test]
fn an_outcome_for_nobody_is_still_reported_as_it_came() {
    let mut session = Session::new(DisplayMetrics::default());
    assert!(matches!(
        session.hear(TaskId(9), TaskOutcome::Cancelled),
        Delivery::Report {
            task: TaskId(9),
            outcome: TaskOutcome::Cancelled,
        }
    ));
}
