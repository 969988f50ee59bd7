use kobo::command::Command;
use kobo::context::Context;
use kobo::device::{
    AudioPlaybackState, AudioSource, BatteryDetail, DeviceRequest, DeviceResult,
};
use kobo::device_request::encode_device_request;
use kobo::device_result::encode_device_result;
use kobo::error::ProtocolError;
use kobo::frame::{decode, encode};
use kobo::hardware::is_bluetooth_address;
use kobo::message::{Frame, Message};
use kobo::task::Credential;
use kobo::task_codec::{push_credential, take_credential};
use kobo::wire::Reader;

const RADIO: &str = "AA:BB:CC:DD:EE:FF";

#[test]
fn each_operation_asks_for_itself() {
    let mut context = Context::default();
    let mut device = context.device();
    device.read_battery();
    device.read_battery_detail();
    device.read_cover();
    device.release_wifi();
    device.allow_sleep();
    device.cancel_wake();
    device.set_frontlight(180);
    device.read_frontlight();
    device.read_bluetooth();
    device.set_bluetooth(true);
    device.scan_bluetooth();
    assert!(device.disconnect_bluetooth(RADIO));
    device.read_wifi();
    device.set_wifi(false);
    device.scan_wifi();
    device.disconnect_wifi();
    device.read_audio();
    device.load_audio(AudioSource::Shelf("song.ogg".into()));
    device.play_audio();
    device.pause_audio();
    device.stop_audio();
    device.set_audio_volume(101);
    let mut applications = context.applications();
    applications.installed();
    applications.cached_catalog();
    applications.refresh_catalog();
    let asked: Vec<Command> = [
        DeviceRequest::ReadBattery,
        DeviceRequest::ReadBatteryDetail,
        DeviceRequest::ReadCover,
        DeviceRequest::ReleaseWifi,
        DeviceRequest::AllowSleep,
        DeviceRequest::CancelWake,
        DeviceRequest::SetFrontlight { percent: 100 },
        DeviceRequest::ReadFrontlight,
        DeviceRequest::ReadBluetooth,
        DeviceRequest::SetBluetooth { enabled: true },
        DeviceRequest::ScanBluetooth,
        DeviceRequest::DisconnectBluetooth {
            address: RADIO.into(),
        },
        DeviceRequest::ReadWifi,
        DeviceRequest::SetWifi { enabled: false },
        DeviceRequest::ScanWifi,
        DeviceRequest::DisconnectWifi,
        DeviceRequest::ReadAudio,
        DeviceRequest::LoadAudio {
            source: AudioSource::Shelf("song.ogg".into()),
        },
        DeviceRequest::PlayAudio,
        DeviceRequest::PauseAudio,
        DeviceRequest::StopAudio,
        DeviceRequest::SetAudioVolume { percent: 100 },
        DeviceRequest::ListInstalledApps,
        DeviceRequest::ReadAppCatalog,
        DeviceRequest::RefreshAppCatalog,
    ]
    .into_iter()
    .map(Command::Device)
    .collect();
    assert_eq!(context.take_commands(), asked);
}

#[test]
fn what_is_accepted_here_can_be_sent() {
    let mut context = Context::default();
    assert!(context.applications().install("word-count"));
    assert!(context.applications().uninstall("word-count"));
    assert!(context.device().pair_bluetooth(RADIO));
    assert!(context.device().connect_bluetooth(RADIO));
    assert!(context.device().forget_bluetooth(RADIO));
    assert!(context.device().join_wifi("\u{e9}tage", "12345678"));
    assert!(context.device().load_shelf_audio("song.ogg"));
    assert!(context
        .device()
        .load_audio_stream("https://example.com/a.mp3"));
    assert!(context.device().lookup_word("word", None));
    assert!(context
        .device()
        .update("https://example.com/a.tgz", &"0".repeat(64)));
    for command in context.take_commands() {
        let Command::Device(request) = command else {
            panic!("a device was asked for nothing");
        };
        let frame = Frame {
            request_id: 3,
            message: Message::DeviceRequest(request),
        };
        assert_eq!(decode(&encode(&frame).expect("encode")), Ok(frame));
    }
}

#[test]
fn the_address_of_a_radio_is_six_bytes() {
    assert!(is_bluetooth_address(RADIO));
    assert!(is_bluetooth_address("00:11:22:33:44:5a"));
    assert!(!is_bluetooth_address("00-11-22-33-44-5a"));
    assert!(!is_bluetooth_address("00:11:22:33:44:5\u{e9}"));
    assert!(!is_bluetooth_address(""));
}

#[test]
fn a_battery_says_how_worn_it_is() {
    let worn = |full, design| {
        BatteryDetail {
            charge_full: full,
            charge_full_design: design,
            ..BatteryDetail::default()
        }
        .health_percent()
    };
    assert_eq!(worn(Some(1_350), Some(1_500)), Some(90));
    assert_eq!(worn(Some(1_600), Some(1_500)), Some(100));
    assert_eq!(worn(Some(1_350), Some(0)), None);
    assert_eq!(worn(Some(0), Some(1_500)), None);
    assert_eq!(worn(None, Some(1_500)), None);
}

#[test]
fn a_battery_says_how_long_it_has() {
    let left = |microamps, held, full| {
        BatteryDetail {
            microamps,
            charge_now: held,
            charge_full: full,
            ..BatteryDetail::default()
        }
        .minutes_remaining()
    };
    assert_eq!(left(Some(-100), Some(500), Some(1_500)), Some(300));
    assert_eq!(left(Some(100), Some(500), Some(1_500)), Some(600));
    assert_eq!(left(Some(100), Some(1_500), Some(1_500)), None);
    assert_eq!(left(Some(0), Some(500), Some(1_500)), None);
    assert_eq!(left(None, Some(500), Some(1_500)), None);
    assert_eq!(left(Some(i32::MIN), Some(i32::MAX), None), Some(59));
}

#[test]
fn a_refused_request_leaves_the_output_as_it_was() {
    let insecure = DeviceRequest::Update {
        url: "http://example.com/a.tgz".into(),
        sha256: "0".repeat(64),
    };
    let unsigned = DeviceRequest::Update {
        url: "https://example.com/a.tgz".into(),
        sha256: "0".repeat(63),
    };
    let mut output = vec![1, 2];
    assert_eq!(
        encode_device_request(&mut output, &insecure),
        Err(ProtocolError::InvalidValue("update url"))
    );
    assert_eq!(
        encode_device_request(&mut output, &unsigned),
        Err(ProtocolError::InvalidValue("update digest"))
    );
    assert_eq!(
        encode_device_result(
            &mut output,
            &DeviceResult::Audio {
                available: true,
                state: AudioPlaybackState::Playing,
                position_ms: 0,
                duration_ms: 0,
                volume: 101,
            }
        ),
        Err(ProtocolError::InvalidValue("audio volume"))
    );
    assert_eq!(output, vec![1, 2]);
}

#[test]
fn a_credential_survives_the_wire_or_is_refused() {
    for credential in [
        None,
        Some(Credential::bearer("token")),
        Some(Credential::basic("login")),
        Some(Credential::in_header("token", "X-Api-Key")),
    ] {
        let mut output = Vec::new();
        push_credential(&mut output, &credential);
        let mut reader = Reader::new(&output);
        assert_eq!(take_credential(&mut reader), Ok(credential));
        assert!(reader.is_finished());
    }
    let refused = Err(ProtocolError::InvalidValue("credential"));
    for malformed in [
        Credential::bearer(""),
        Credential::in_header("token", "X Api Key"),
    ] {
        let mut output = Vec::new();
        push_credential(&mut output, &Some(malformed));
        assert_eq!(take_credential(&mut Reader::new(&output)), refused);
    }
    assert_eq!(take_credential(&mut Reader::new(&[4])), refused);
}

#[test]
fn a_secret_is_sent_in_the_header_it_names() {
    assert_eq!(Credential::bearer("token").header_name(), "Authorization");
    assert_eq!(
        Credential::in_header("token", "X-Api-Key").header_name(),
        "X-Api-Key"
    );
}
