use kobo::device::{AppInfo, AppLinkState, AudioPlaybackState, AudioSource, BatteryDetail, BluetoothDevice, BluetoothDeviceKind, DenyReason, DeviceError, DeviceRequest, DeviceResult, RemoteInstallOutcome, WifiNetwork, valid_app_id};
use kobo::error::ProtocolError;
use kobo::frame::{decode, encode};
use kobo::glyph::{Glyph, decode_glyph, encode_glyph};
use kobo::limits::{HEADER_LEN, MAGIC, MAX_APP_CATALOG_ENTRIES, MAX_APP_ID_LEN, MAX_APP_VERSION_LEN, MAX_NODES, MAX_STRING_LEN, MAX_URL_LEN, VERSION};
use kobo::message::{Frame, Message};
use kobo::ui::{ActionId, ControlState, Emphasis, Node, NodeId, Screen, TextScale};

#[test]
fn every_glyph_has_a_wire_tag_and_gets_it_back() {
    for glyph in Glyph::all() {
        let tag = encode_glyph(glyph);
        assert_eq!(
            decode_glyph(tag),
            Some(glyph),
            "{glyph:?} encoded as {tag} and came back as something else"
        );
    }
    let tags: Vec<u8> = Glyph::all().into_iter().map(encode_glyph).collect();
    let mut unique = tags.clone();
    unique.sort_unstable();
    unique.dedup();
    assert_eq!(unique.len(), tags.len(), "two glyphs share one wire tag");
    assert_eq!(
        decode_glyph(u8::try_from(Glyph::all().len()).expect("small set")),
        None,
        "a tag one past the end decoded as a glyph"
    );
}

#[test]
fn every_device_request_round_trips() {
    let requests = vec![
        DeviceRequest::ReadBattery,
        DeviceRequest::HoldWifi { seconds: 600 },
        DeviceRequest::ReleaseWifi,
        DeviceRequest::KeepAwake { seconds: u32::MAX },
        DeviceRequest::AllowSleep,
        DeviceRequest::ScheduleWake { seconds: 900 },
        DeviceRequest::CancelWake,
        DeviceRequest::SetFrontlight { percent: 100 },
        DeviceRequest::SetFrontlight { percent: 0 },
        DeviceRequest::ReadFrontlight,
        DeviceRequest::ReadBluetooth,
        DeviceRequest::SetBluetooth { enabled: true },
        DeviceRequest::ScanBluetooth,
        DeviceRequest::PairBluetooth {
            address: "AA:BB:CC:DD:EE:FF".to_owned(),
        },
        DeviceRequest::ConnectBluetooth {
            address: "AA:BB:CC:DD:EE:FF".to_owned(),
        },
        DeviceRequest::DisconnectBluetooth {
            address: "AA:BB:CC:DD:EE:FF".to_owned(),
        },
        DeviceRequest::ForgetBluetooth {
            address: "AA:BB:CC:DD:EE:FF".to_owned(),
        },
        DeviceRequest::ReadWifi,
        DeviceRequest::SetWifi { enabled: false },
        DeviceRequest::ScanWifi,
        DeviceRequest::JoinWifi {
            ssid: "Library".to_owned(),
            password: "readmore".to_owned(),
        },
        DeviceRequest::DisconnectWifi,
        DeviceRequest::ReadAudio,
        DeviceRequest::LoadAudio {
            source: AudioSource::Shelf("audiobook.mp3z".to_owned()),
        },
        DeviceRequest::LoadAudio {
            source: AudioSource::Stream("https://example.com/book.mp3".to_owned()),
        },
        DeviceRequest::PlayAudio,
        DeviceRequest::PauseAudio,
        DeviceRequest::SeekAudio {
            position_ms: 120_000,
        },
        DeviceRequest::StopAudio,
        DeviceRequest::SetAudioVolume { percent: 65 },
        DeviceRequest::ReadBatteryDetail,
        DeviceRequest::ReadCover,
        DeviceRequest::Update {
            url: "https://github.com/o/r/releases/download/v0.1.1/KoboRoot.tgz".to_owned(),
            sha256: "a".repeat(64),
        },
        DeviceRequest::ListInstalledApps,
        DeviceRequest::ReadAppCatalog,
        DeviceRequest::RefreshAppCatalog,
        DeviceRequest::InstallApp {
            id: "word-count".to_owned(),
        },
        DeviceRequest::UninstallApp {
            id: "word-count".to_owned(),
        },
        DeviceRequest::ReadAppLink,
        DeviceRequest::BeginAppLink,
        DeviceRequest::PollAppLink,
        DeviceRequest::DisconnectAppLink,
    ];
    for request in requests {
        let frame = Frame {
            request_id: 9,
            message: Message::DeviceRequest(request),
        };
        let bytes = encode(&frame).expect("encode");
        assert_eq!(decode(&bytes).expect("decode"), frame);
    }
}

#[test]
fn an_update_that_could_not_be_verified_is_refused_at_the_encoder() {
    let cases = [
        ("http://github.com/a.tgz".to_owned(), "a".repeat(64)),
        ("https://github.com/a.tgz".to_owned(), "a".repeat(63)),
        (
            "https://github.com/a.tgz".to_owned(),
            format!("{}F", "a".repeat(63)),
        ),
    ];
    for (url, sha256) in cases {
        let frame = Frame {
            request_id: 9,
            message: Message::DeviceRequest(DeviceRequest::Update {
                url: url.clone(),
                sha256,
            }),
        };
        assert!(encode(&frame).is_err(), "{url} was encoded");
    }
}

#[test]
fn every_device_result_round_trips() {
    let results = vec![
        DeviceResult::Done,
        DeviceResult::Granted { seconds: 300 },
        DeviceResult::Battery {
            percent: 100,
            charging: true,
        },
        DeviceResult::Battery {
            percent: 0,
            charging: false,
        },
        DeviceResult::Frontlight { percent: 42 },
        DeviceResult::Denied(DenyReason::NotDeclared),
        DeviceResult::Denied(DenyReason::WithheldForBattery),
        DeviceResult::Denied(DenyReason::Unsupported),
        DeviceResult::Denied(DenyReason::PolicyRejected),
        DeviceResult::Denied(DenyReason::Busy),
        DeviceResult::Bluetooth {
            available: true,
            enabled: true,
            devices: vec![BluetoothDevice {
                address: "AA:BB:CC:DD:EE:FF".to_owned(),
                name: "Headphones".to_owned(),
                kind: BluetoothDeviceKind::Audio,
                paired: true,
                connected: true,
            }],
            restart_on_exit: false,
        },
        DeviceResult::Bluetooth {
            available: true,
            enabled: true,
            devices: Vec::new(),
            restart_on_exit: true,
        },
        DeviceResult::Wifi {
            available: true,
            enabled: true,
            connected_ssid: Some("Library".to_owned()),
            networks: vec![WifiNetwork {
                ssid: "Library".to_owned(),
                signal_dbm: -48,
                secured: true,
                connected: true,
            }],
        },
        DeviceResult::Audio {
            available: true,
            state: AudioPlaybackState::Playing,
            position_ms: 75_000,
            duration_ms: 600_000,
            volume: 70,
        },
        DeviceResult::Failed(DeviceError::Authentication),
        DeviceResult::Failed(DeviceError::Integrity),
        DeviceResult::BatteryDetail(BatteryDetail {
            percent: Some(28),
            status: Some("Discharging".to_owned()),
            health: Some("Good".to_owned()),
            technology: Some("Li-ion".to_owned()),
            decidegrees: Some(290),
            microvolts: Some(3_720_000),
            microamps: Some(-180_000),
            charge_now: Some(420_000),
            charge_full: Some(1_480_000),
            charge_full_design: Some(1_500_000),
        }),
        DeviceResult::BatteryDetail(BatteryDetail::default()),
        DeviceResult::Cover {
            available: true,
            magnet_present: true,
        },
        DeviceResult::Cover {
            available: false,
            magnet_present: false,
        },
        DeviceResult::Apps {
            entries: vec![AppInfo {
                id: "word-count".to_owned(),
                title: "Word Count".to_owned(),
                label: "Words".to_owned(),
                summary: "Counts words in a note.".to_owned(),
                version: "1.2.0".to_owned(),
                glyph: Glyph::Note,
                capabilities: vec!["shared-files".to_owned()],
                installed_version: Some("1.1.0".to_owned()),
            }],
        },
    ];
    for result in results {
        let frame = Frame {
            request_id: 11,
            message: Message::DeviceResult(result),
        };
        let bytes = encode(&frame).expect("encode");
        assert_eq!(decode(&bytes).expect("decode"), frame);
    }
}

#[test]
fn every_app_link_result_round_trips() {
    let results = [
        DeviceResult::AppLink(AppLinkState::Unpaired),
        DeviceResult::AppLink(AppLinkState::Pairing {
            code: "2345ABCD".to_owned(),
            url: "https://store.example/link".to_owned(),
            expires_in: 600,
        }),
        DeviceResult::AppLink(AppLinkState::Paired { browsers: 8 }),
        DeviceResult::RemoteInstall(RemoteInstallOutcome::Nothing),
        DeviceResult::RemoteInstall(RemoteInstallOutcome::Installed {
            id: "word-count".to_owned(),
        }),
        DeviceResult::RemoteInstall(RemoteInstallOutcome::Updated {
            id: "word-count".to_owned(),
        }),
        DeviceResult::RemoteInstall(RemoteInstallOutcome::AlreadyInstalled {
            id: "word-count".to_owned(),
        }),
        DeviceResult::RemoteInstall(RemoteInstallOutcome::Included {
            id: "word-count".to_owned(),
        }),
        DeviceResult::RemoteInstall(RemoteInstallOutcome::Unavailable {
            id: "word-count".to_owned(),
        }),
    ];
    for result in results {
        let frame = Frame {
            request_id: 11,
            message: Message::DeviceResult(result),
        };
        let bytes = encode(&frame).expect("encode");
        assert_eq!(decode(&bytes).expect("decode"), frame);
    }
}

#[test]
fn app_requests_and_results_are_bounded_and_validated() {
    let ids = vec![
        String::new(),
        "../todo".to_owned(),
        "Todo".to_owned(),
        "a/b".to_owned(),
        "1todo".to_owned(),
        "-todo".to_owned(),
        "todo-".to_owned(),
        "todo--list".to_owned(),
        "a".repeat(MAX_APP_ID_LEN + 1),
    ];
    for id in ids {
        let frame = Frame {
            request_id: 1,
            message: Message::DeviceRequest(DeviceRequest::InstallApp { id: id.clone() }),
        };
        assert!(encode(&frame).is_err(), "{id:?} was accepted as an app id");
    }
    for id in ["a", "todo", "todo-2", "a1-b2"] {
        assert!(valid_app_id(id), "{id:?} was rejected as an app id");
    }

    let too_many = DeviceResult::Apps {
        entries: (0..=MAX_APP_CATALOG_ENTRIES)
            .map(|index| AppInfo {
                id: format!("app-{index}"),
                title: "App".to_owned(),
                label: "App".to_owned(),
                summary: "One application.".to_owned(),
                version: "1.0.0".to_owned(),
                glyph: Glyph::App,
                capabilities: Vec::new(),
                installed_version: None,
            })
            .collect(),
    };
    assert!(encode(&Frame {
        request_id: 1,
        message: Message::DeviceResult(too_many),
    })
    .is_err());

    let app = |version: String| AppInfo {
        id: "version-test".to_owned(),
        title: "Version Test".to_owned(),
        label: "Version".to_owned(),
        summary: "Checks the application version wire bound.".to_owned(),
        version,
        glyph: Glyph::App,
        capabilities: Vec::new(),
        installed_version: None,
    };
    assert!(encode(&Frame {
        request_id: 1,
        message: Message::DeviceResult(DeviceResult::Apps {
            entries: vec![app("a".repeat(MAX_APP_VERSION_LEN))],
        }),
    })
    .is_ok());
    assert!(encode(&Frame {
        request_id: 1,
        message: Message::DeviceResult(DeviceResult::Apps {
            entries: vec![app("a".repeat(MAX_APP_VERSION_LEN + 1))],
        }),
    })
    .is_err());
}

#[test]
fn malformed_device_payloads_are_rejected_without_panic() {
    let template = encode(&Frame {
        request_id: 1,
        message: Message::DeviceRequest(DeviceRequest::ReadBattery),
    })
    .expect("encode");

    let mut unknown = template.clone();
    unknown[HEADER_LEN] = 200;
    assert_eq!(
        decode(&unknown),
        Err(ProtocolError::InvalidValue("device request"))
    );

    let mut absurd = template.clone();
    absurd[HEADER_LEN] = 8;
    absurd[HEADER_LEN + 4] = 250;
    assert_eq!(
        decode(&absurd),
        Err(ProtocolError::InvalidValue("frontlight percent"))
    );

    let mut truncated = template.clone();
    truncated.truncate(HEADER_LEN + 3);
    assert_eq!(decode(&truncated), Err(ProtocolError::LengthMismatch));

    let result = encode(&Frame {
        request_id: 1,
        message: Message::DeviceResult(DeviceResult::Denied(DenyReason::Busy)),
    })
    .expect("encode");
    let mut bad_reason = result;
    let last = bad_reason.len() - 1;
    bad_reason[last] = 99;
    assert_eq!(
        decode(&bad_reason),
        Err(ProtocolError::InvalidValue("deny reason"))
    );
}

#[test]
fn app_link_and_remote_install_payloads_are_bounded_and_validated() {
    let pairing = |code: String, url: String, expires_in| Frame {
        request_id: 1,
        message: Message::DeviceResult(DeviceResult::AppLink(AppLinkState::Pairing {
            code,
            url,
            expires_in,
        })),
    };
    for code in [
        "2345ABC".to_owned(),
        "2345ABCDE".to_owned(),
        "2345ABCI".to_owned(),
        "2345abcD".to_owned(),
    ] {
        assert!(encode(&pairing(code, "https://store.example/link".to_owned(), 60)).is_err());
    }
    assert!(encode(&pairing(
        "2345ABCD".to_owned(),
        "http://store.example/link".to_owned(),
        60
    ))
    .is_err());
    assert!(encode(&pairing(
        "2345ABCD".to_owned(),
        format!("https://{}", "a".repeat(MAX_URL_LEN)),
        60
    ))
    .is_err());
    assert!(encode(&pairing(
        "2345ABCD".to_owned(),
        "https://store.example/link".to_owned(),
        601
    ))
    .is_err());
    assert!(encode(&Frame {
        request_id: 1,
        message: Message::DeviceResult(DeviceResult::AppLink(AppLinkState::Paired {
            browsers: 9,
        })),
    })
    .is_err());
    assert!(encode(&Frame {
        request_id: 1,
        message: Message::DeviceResult(DeviceResult::RemoteInstall(
            RemoteInstallOutcome::Installed {
                id: "../store".to_owned(),
            },
        )),
    })
    .is_err());
}

#[test]
fn malformed_app_link_payloads_are_rejected() {
    let pairing = |code: String, url: String, expires_in| Frame {
        request_id: 1,
        message: Message::DeviceResult(DeviceResult::AppLink(AppLinkState::Pairing {
            code,
            url,
            expires_in,
        })),
    };
    let valid_pairing = encode(&pairing(
        "2345ABCD".to_owned(),
        "https://store.example/link".to_owned(),
        600,
    ))
    .expect("valid pairing");
    let mut bad_code = valid_pairing.clone();
    bad_code[HEADER_LEN + 6] = b'I';
    assert_eq!(
        decode(&bad_code),
        Err(ProtocolError::InvalidValue("application link"))
    );
    let mut bad_expiry = valid_pairing;
    let last = bad_expiry.len() - 1;
    bad_expiry[last] = 0x59;
    assert_eq!(
        decode(&bad_expiry),
        Err(ProtocolError::InvalidValue("application link"))
    );

    let mut bad_url = encode(&pairing(
        "2345ABCD".to_owned(),
        "https://store.example/link".to_owned(),
        600,
    ))
    .expect("valid pairing");
    bad_url[HEADER_LEN + 18] = b'x';
    assert_eq!(
        decode(&bad_url),
        Err(ProtocolError::InvalidValue("application link"))
    );

    let mut bad_browsers = encode(&Frame {
        request_id: 1,
        message: Message::DeviceResult(DeviceResult::AppLink(AppLinkState::Paired {
            browsers: 8,
        })),
    })
    .expect("valid paired state");
    let last = bad_browsers.len() - 1;
    bad_browsers[last] = 9;
    assert_eq!(
        decode(&bad_browsers),
        Err(ProtocolError::InvalidValue("application link"))
    );

    let mut bad_id = encode(&Frame {
        request_id: 1,
        message: Message::DeviceResult(DeviceResult::RemoteInstall(
            RemoteInstallOutcome::Installed {
                id: "word-count".to_owned(),
            },
        )),
    })
    .expect("valid outcome");
    bad_id[HEADER_LEN + 6] = b'W';
    assert_eq!(
        decode(&bad_id),
        Err(ProtocolError::InvalidValue("application id"))
    );

    let mut bad_outcome = encode(&Frame {
        request_id: 1,
        message: Message::DeviceResult(DeviceResult::RemoteInstall(RemoteInstallOutcome::Nothing)),
    })
    .expect("valid empty outcome");
    let last = bad_outcome.len() - 1;
    bad_outcome[last] = 7;
    assert_eq!(
        decode(&bad_outcome),
        Err(ProtocolError::InvalidValue("remote install outcome"))
    );
}

#[test]
fn screen_round_trip_is_deterministic() {
    let frame = Frame {
        request_id: 12,
        message: Message::SetScreen(Screen::new(
            7,
            vec![Node::Card {
                id: NodeId(1),
                children: vec![Node::Button {
                    id: NodeId(2),
                    action: ActionId(3),
                    label: "Go".into(),
                    state: ControlState::Enabled,
                    emphasis: Emphasis::Normal,
                }],
            }],
        )),
    };
    let encoded = encode(&frame).expect("valid screen");
    assert_eq!(encoded, encode(&frame).expect("stable encoding"));
    assert_eq!(decode(&encoded), Ok(frame));
}

#[test]
fn a_reading_screens_middle_column_survives_the_wire() {
    let plain = Screen::new(1, Vec::new()).with_page_turns(ActionId(11), ActionId(12));
    let with_menu = {
        let mut screen = plain.clone();
        screen.page_turns = screen
            .page_turns
            .map(|turns| turns.with_menu(ActionId(13)).with_position(4, 12));
        screen
    };
    for screen in [plain, with_menu] {
        let expected = screen.page_turns;
        let frame = Frame {
            request_id: 4,
            message: Message::SetScreen(screen),
        };
        let bytes = encode(&frame).expect("encodes");
        let back = decode(&bytes).expect("decodes");
        let Message::SetScreen(out) = back.message else {
            panic!("wrong message");
        };
        assert_eq!(out.page_turns, expected);
    }
}

#[test]
fn a_held_finger_survives_the_wire() {
    let plain = Screen::new(1, Vec::new());
    let holding = Screen::new(1, Vec::new()).with_hold(ActionId(21));
    for screen in [plain, holding] {
        let expected = screen.hold;
        let frame = Frame {
            request_id: 4,
            message: Message::SetScreen(screen),
        };
        let bytes = encode(&frame).expect("encodes");
        let back = decode(&bytes).expect("decodes");
        let Message::SetScreen(out) = back.message else {
            panic!("wrong message");
        };
        assert_eq!(out.hold, expected);
    }
}

#[test]
fn a_screen_can_ask_for_a_text_size_and_most_do_not() {
    let screen = Screen::new(1, Vec::new());
    assert!(
        screen.text_scale.is_none(),
        "inheriting the reader's own setting is the default"
    );
    for scale in [None, Some(TextScale::Large), Some(TextScale::ExtraLarge)] {
        let frame = Frame {
            request_id: 9,
            message: Message::SetScreen(screen.clone().with_text_scale(scale)),
        };
        let bytes = encode(&frame).expect("encodes");
        let back = decode(&bytes).expect("decodes");
        let Message::SetScreen(out) = back.message else {
            panic!("wrong message");
        };
        assert_eq!(out.text_scale, scale);
    }
}

#[test]
fn a_request_for_first_refusal_on_back_survives_the_wire() {
    let screen = Screen::new(
        7,
        vec![Node::Text {
            id: NodeId(1),
            text: "Chapter one".into(),
            links: Vec::new(),
        }],
    );
    assert!(!screen.owns_back, "not asking for it is the default");
    for owns_back in [false, true] {
        let frame = Frame {
            request_id: 12,
            message: Message::SetScreen(screen.clone().with_own_back(owns_back)),
        };
        let encoded = encode(&frame).expect("valid screen");
        assert_eq!(decode(&encoded), Ok(frame));
    }
}

#[test]
fn malformed_frames_are_rejected_before_allocation() {
    assert_eq!(decode(b"short"), Err(ProtocolError::Truncated));
    let mut header = [0_u8; HEADER_LEN];
    header[..4].copy_from_slice(&MAGIC);
    header[4] = VERSION;
    header[5] = 6;
    header[6..10].copy_from_slice(&u32::MAX.to_be_bytes());
    assert_eq!(decode(&header), Err(ProtocolError::FrameTooLarge));
}

#[test]
fn invalid_utf8_is_rejected() {
    let mut bytes = encode(&Frame {
        request_id: 1,
        message: Message::Hello { name: "x".into() },
    })
    .expect("valid hello");
    *bytes.last_mut().expect("payload") = 0xff;
    assert_eq!(decode(&bytes), Err(ProtocolError::InvalidUtf8));
}



#[test]
fn encoder_rejects_node_and_list_counts_decoder_would_reject() {
    let nodes = (0..=MAX_NODES)
        .map(|id| Node::Divider {
            id: NodeId(u32::try_from(id).expect("fixture ID")),
        })
        .collect();
    assert_eq!(
        encode(&Frame {
            request_id: 1,
            message: Message::SetScreen(Screen::new(1, nodes)),
        }),
        Err(ProtocolError::TooManyNodes)
    );

    assert_eq!(
        encode(&Frame {
            request_id: 2,
            message: Message::SetScreen(Screen::new(
                2,
                vec![Node::PagedList {
                    id: NodeId(1),
                    page: 0,
                    items: vec![String::new(); MAX_NODES + 1],
                }],
            )),
        }),
        Err(ProtocolError::TooManyNodes)
    );
}

#[test]
fn encoder_preflights_payload_limit() {
    let nodes = (0..512)
        .map(|id| Node::Text {
            id: NodeId(id),
            text: "x".repeat(MAX_STRING_LEN),
            links: Vec::new(),
        })
        .collect();
    assert_eq!(
        encode(&Frame {
            request_id: 3,
            message: Message::SetScreen(Screen::new(3, nodes)),
        }),
        Err(ProtocolError::FrameTooLarge)
    );
}
