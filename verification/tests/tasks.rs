use kobo::builder::ScreenBuilder;
use kobo::command::Command;
use kobo::context::{Context, MAX_TASKS_IN_FLIGHT};
use kobo::device::LogLevel;
use kobo::failure::{Failure, JOIN_WIFI};
use kobo::name::action_id;
use kobo::runner::{AppRunner, KoboApp};
use kobo::session::RETRY_DELAY_SECONDS;
use kobo::task::{Task, TaskError, TaskId, TaskOutcome};
use kobo::ui::{ActionId, Node, Screen};

#[derive(Default)]
struct Spawner {
    outcomes: Vec<(TaskId, TaskOutcome)>,
    spawn_on_action: bool,
}

impl KoboApp for Spawner {
    fn on_start(&mut self, context: &mut Context) {
        context.spawn(Task::Sleep { seconds: 1 });
    }

    fn on_action(&mut self, context: &mut Context, _action: ActionId) {
        if self.spawn_on_action {
            context.spawn(Task::Sleep { seconds: 1 });
        }
    }

    fn on_task(&mut self, _context: &mut Context, task: TaskId, outcome: TaskOutcome) {
        self.outcomes.push((task, outcome));
    }
}

fn spawned(commands: &[Command]) -> Vec<TaskId> {
    commands
        .iter()
        .filter_map(|command| match command {
            Command::Spawn { task, .. } => Some(*task),
            _ => None,
        })
        .collect()
}

#[derive(Default)]
struct Fetcher {
    asked: Option<TaskId>,
    outcomes: Vec<(TaskId, TaskOutcome)>,
    cancel_on_action: bool,
}

impl Fetcher {
    fn work() -> Task {
        Task::Fetch {
            url: "https://example.invalid/feed".into(),
            offset: 0,
            max_bytes: 1024,
            credential: None,
            headers: Vec::new(),
        }
    }
}

impl KoboApp for Fetcher {
    fn on_start(&mut self, context: &mut Context) {
        self.asked = context.spawn_retrying(Self::work());
    }

    fn on_action(&mut self, context: &mut Context, _action: ActionId) {
        if self.cancel_on_action {
            if let Some(task) = self.asked {
                context.cancel(task);
            }
        }
    }

    fn on_task(&mut self, _context: &mut Context, task: TaskId, outcome: TaskOutcome) {
        self.outcomes.push((task, outcome));
    }
}

fn spawned_work(commands: &[Command]) -> Vec<(TaskId, Task)> {
    commands
        .iter()
        .filter_map(|command| match command {
            Command::Spawn { task, work } => Some((*task, work.clone())),
            _ => None,
        })
        .collect()
}

#[test]
fn a_retryable_failure_naps_and_tries_again_without_telling_the_application() {
    let mut runner = AppRunner::new(Fetcher::default());
    let first = spawned_work(&runner.start());
    assert_eq!(first.len(), 1);
    let held = first[0].0;

    let nap = spawned_work(&runner.task_outcome(held, TaskOutcome::Failed(TaskError::Offline)));
    assert_eq!(
        nap,
        vec![(
            TaskId(2),
            Task::Sleep {
                seconds: RETRY_DELAY_SECONDS
            }
        )]
    );
    assert!(runner.app().outcomes.is_empty(), "the failure was reported");

    let again =
        spawned_work(&runner.task_outcome(TaskId(2), TaskOutcome::Completed(Vec::new())));
    assert_eq!(again, vec![(TaskId(3), Fetcher::work())]);
    assert!(runner.app().outcomes.is_empty());
}

#[test]
fn a_second_attempt_reports_under_the_identifier_the_application_holds() {
    let mut runner = AppRunner::new(Fetcher::default());
    runner.start();
    let held = runner.app().asked.expect("asked");
    runner.task_outcome(held, TaskOutcome::Failed(TaskError::Offline));
    runner.task_outcome(TaskId(2), TaskOutcome::Completed(Vec::new()));
    runner.task_outcome(TaskId(3), TaskOutcome::Completed(b"ok".to_vec()));
    let outcomes = &runner.app().outcomes;
    assert_eq!(outcomes.len(), 1);
    assert_eq!(outcomes[0].0, held);
    assert!(matches!(
        outcomes[0].1,
        TaskOutcome::Completed(ref body) if body == b"ok"
    ));
}

#[test]
fn a_second_failure_is_reported_rather_than_retried_forever() {
    let mut runner = AppRunner::new(Fetcher::default());
    runner.start();
    let held = runner.app().asked.expect("asked");
    runner.task_outcome(held, TaskOutcome::Failed(TaskError::Offline));
    runner.task_outcome(TaskId(2), TaskOutcome::Completed(Vec::new()));
    let commands = runner.task_outcome(TaskId(3), TaskOutcome::Failed(TaskError::Offline));
    assert!(spawned_work(&commands).is_empty(), "retried a third time");
    assert_eq!(runner.app().outcomes.len(), 1);
    assert!(matches!(
        runner.app().outcomes[0].1,
        TaskOutcome::Failed(TaskError::Offline)
    ));
}

#[test]
fn a_failure_a_second_attempt_cannot_survive_is_reported_at_once() {
    let mut runner = AppRunner::new(Fetcher::default());
    runner.start();
    let held = runner.app().asked.expect("asked");
    let commands = runner.task_outcome(held, TaskOutcome::Failed(TaskError::Denied));
    assert!(spawned_work(&commands).is_empty());
    assert_eq!(runner.app().outcomes.len(), 1);
}

#[test]
fn retrying_holds_one_slot_rather_than_two() {
    let mut runner = AppRunner::new(Fetcher::default());
    runner.start();
    let held = runner.app().asked.expect("asked");
    runner.task_outcome(held, TaskOutcome::Failed(TaskError::Offline));
    runner.task_outcome(TaskId(2), TaskOutcome::Completed(Vec::new()));
    assert_eq!(runner.tasks_in_flight(), 1);
    runner.task_outcome(TaskId(3), TaskOutcome::Completed(Vec::new()));
    assert_eq!(runner.tasks_in_flight(), 0);
}

#[test]
fn cancelling_reaches_the_attempt_actually_in_the_air() {
    let mut runner = AppRunner::new(Fetcher {
        cancel_on_action: true,
        ..Fetcher::default()
    });
    runner.start();
    let held = runner.app().asked.expect("asked");
    runner.task_outcome(held, TaskOutcome::Failed(TaskError::Offline));
    runner.task_outcome(TaskId(2), TaskOutcome::Completed(Vec::new()));
    let commands = runner.action(ActionId(1));
    assert!(
        commands.contains(&Command::Cancel(TaskId(3))),
        "cancelled the wrong task: {commands:?}"
    );
}

#[test]
fn cancelling_during_the_nap_stops_it_rather_than_retrying_anyway() {
    let mut runner = AppRunner::new(Fetcher {
        cancel_on_action: true,
        ..Fetcher::default()
    });
    runner.start();
    let held = runner.app().asked.expect("asked");
    runner.task_outcome(held, TaskOutcome::Failed(TaskError::Offline));
    let commands = runner.action(ActionId(1));
    assert!(commands.contains(&Command::Cancel(TaskId(2))));
    let after = runner.task_outcome(TaskId(2), TaskOutcome::Cancelled);
    assert!(spawned_work(&after).is_empty(), "retried a cancelled fetch");
    assert_eq!(runner.app().outcomes, vec![(held, TaskOutcome::Cancelled)]);
}

#[test]
fn joining_wifi_opens_settings_without_troubling_the_application() {
    let mut runner = AppRunner::new(Spawner {
        spawn_on_action: true,
        ..Spawner::default()
    });
    runner.start();
    let commands = runner.action(action_id(JOIN_WIFI));
    assert!(
        commands
            .iter()
            .any(|command| matches!(command, Command::Launch(name) if name == "settings")),
        "join Wi-Fi did not open settings: {commands:?}"
    );
    assert!(
        spawned(&commands).is_empty(),
        "the application was handed an action it should never see"
    );
}

#[test]
fn an_offline_failure_offers_the_radio_as_well_as_a_retry() {
    let screen = ScreenBuilder::new("t")
        .failure_state(Failure::of(TaskError::Offline), "refresh")
        .build();
    let names: Vec<ActionId> = button_actions(&screen);
    assert!(names.contains(&action_id(JOIN_WIFI)), "{names:?}");
    assert!(names.contains(&action_id("refresh")), "{names:?}");
}

#[test]
fn a_failure_that_will_not_come_right_offers_nothing() {
    let screen = ScreenBuilder::new("t")
        .failure_state(Failure::of(TaskError::Denied), "refresh")
        .build();
    assert!(button_actions(&screen).is_empty());
}

#[test]
fn a_retryable_failure_that_is_not_the_network_offers_only_a_retry() {
    let screen = ScreenBuilder::new("t")
        .failure_state(Failure::of(TaskError::TimedOut), "refresh")
        .build();
    assert_eq!(button_actions(&screen), vec![action_id("refresh")]);
}

fn button_actions(screen: &Screen) -> Vec<ActionId> {
    let mut found = Vec::new();
    walk(&screen.nodes, &mut found);
    found
}

#[test]
fn plain_spawn_is_left_alone() {
    let mut runner = AppRunner::new(Spawner::default());
    let held = spawned(&runner.start())[0];
    let commands = runner.task_outcome(held, TaskOutcome::Failed(TaskError::Offline));
    assert!(spawned_work(&commands).is_empty());
    assert_eq!(runner.app().outcomes.len(), 1);
}

#[test]
fn task_identifiers_stay_unique_across_separate_callbacks() {
    let mut runner = AppRunner::new(Spawner {
        spawn_on_action: true,
        ..Spawner::default()
    });
    let first = spawned(&runner.start());
    let second = spawned(&runner.action(ActionId(1)));
    let third = spawned(&runner.action(ActionId(2)));
    assert_eq!(first, vec![TaskId(1)]);
    assert_eq!(second, vec![TaskId(2)]);
    assert_eq!(third, vec![TaskId(3)]);
}

#[test]
fn work_in_flight_is_capped_rather_than_queued_without_limit() {
    let mut runner = AppRunner::new(Greedy(0));
    let commands = runner.start();
    assert_eq!(spawned(&commands).len(), MAX_TASKS_IN_FLIGHT);
    assert_eq!(runner.app().0, MAX_TASKS_IN_FLIGHT);
}

#[test]
fn a_settled_task_frees_its_slot() {
    let mut runner = AppRunner::new(Filler);
    runner.start();
    assert_eq!(runner.tasks_in_flight(), MAX_TASKS_IN_FLIGHT);
    assert!(spawned(&runner.action(ActionId(1))).is_empty());
    runner.task_outcome(TaskId(1), TaskOutcome::Completed(Vec::new()));
    assert_eq!(spawned(&runner.action(ActionId(2))).len(), 1);
}

#[test]
fn a_cancelled_task_still_reaches_the_application() {
    let mut runner = AppRunner::new(Spawner::default());
    runner.start();
    runner.task_outcome(TaskId(1), TaskOutcome::Cancelled);
    assert_eq!(
        runner.app().outcomes,
        vec![(TaskId(1), TaskOutcome::Cancelled)]
    );
}

#[test]
fn a_failed_task_still_reaches_the_application() {
    let mut runner = AppRunner::new(Spawner::default());
    runner.start();
    runner.task_outcome(TaskId(1), TaskOutcome::Failed(TaskError::Denied));
    assert_eq!(
        runner.app().outcomes,
        vec![(TaskId(1), TaskOutcome::Failed(TaskError::Denied))]
    );
}

#[test]
fn a_prompt_callback_is_not_reported() {
    let commands = AppRunner::new(Spawner::default()).start();
    assert!(!commands.iter().any(|command| matches!(
        command,
        Command::Log {
            level: LogLevel::Warn,
            ..
        }
    )));
}

fn walk(nodes: &[Node], found: &mut Vec<ActionId>) {
    for node in nodes {
        match node {
            Node::Button { action, .. } => found.push(*action),
            Node::Band { slots, .. } => {
                for slot in slots {
                    walk(&slot.nodes, found);
                }
            }
            _ => {}
        }
    }
}

struct Greedy(usize);

impl KoboApp for Greedy {
    fn on_start(&mut self, context: &mut Context) {
        for _ in 0..MAX_TASKS_IN_FLIGHT + 5 {
            if context.spawn(Task::Sleep { seconds: 1 }).is_some() {
                self.0 += 1;
            }
        }
    }

    fn on_action(&mut self, _context: &mut Context, _action: ActionId) {}
}

struct Filler;

impl KoboApp for Filler {
    fn on_start(&mut self, context: &mut Context) {
        while context.spawn(Task::Sleep { seconds: 1 }).is_some() {}
    }

    fn on_action(&mut self, context: &mut Context, _action: ActionId) {
        context.spawn(Task::Sleep { seconds: 1 });
    }

    fn on_task(&mut self, _context: &mut Context, _task: TaskId, _outcome: TaskOutcome) {}
}
