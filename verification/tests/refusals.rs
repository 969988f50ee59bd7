use kobo::error::ProtocolError;
use kobo::frame::{announced_len, decode, encode};
use kobo::limits::{
    HEADER_LEN, MAX_DEPTH, MAX_FRAME_LEN, MAX_HEADERS, MAX_HEADER_NAME, MAX_HEADER_VALUE,
    MAX_NODES, MAX_POST_BODY_LEN, MAX_STRING_LEN, MAX_TASK_BYTES_U32, MAX_URL_LEN, VERSION,
};
use kobo::message::{Frame, Message};
use kobo::message_codec::encoded_message_layout;
use kobo::task::{Credential, Header, Task, TaskId};
use kobo::ui::{ActionId, BarAction, Node, NodeId, Percent, Screen, TopBar};
use kobo::wire::{add_encoded_len, add_text_len, push_long_string, push_string, Reader};

fn action() -> Frame {
    Frame {
        request_id: 7,
        message: Message::Action {
            action: ActionId(0x0102_0304),
        },
    }
}

fn launch(name: &str) -> Frame {
    Frame {
        request_id: 1,
        message: Message::Launch {
            name: name.to_owned(),
        },
    }
}

fn carrying(kind: u8, payload: &[u8]) -> Vec<u8> {
    let mut bytes = encode(&Frame {
        request_id: 1,
        message: Message::Exit,
    })
    .expect("exit");
    assert_eq!(bytes.len(), HEADER_LEN);
    bytes[5] = kind;
    bytes[6..10].copy_from_slice(&u32::try_from(payload.len()).expect("small").to_be_bytes());
    bytes.extend_from_slice(payload);
    bytes
}

fn cards(depth: usize) -> Frame {
    let mut node = Node::Divider { id: NodeId(1) };
    for _ in 0..depth {
        node = Node::Card {
            id: NodeId(1),
            children: vec![node],
        };
    }
    Frame {
        request_id: 1,
        message: Message::SetScreen(Screen::new(1, vec![node])),
    }
}

#[test]
fn a_frame_is_a_header_and_a_payload() {
    assert_eq!(
        encode(&action()),
        Ok(vec![75, 79, 66, 79, 12, 4, 0, 0, 0, 4, 0, 0, 0, 7, 1, 2, 3, 4])
    );
    assert_eq!(
        encode(&launch("ab")),
        Ok(vec![75, 79, 66, 79, 12, 12, 0, 0, 0, 4, 0, 0, 0, 1, 0, 2, 97, 98])
    );
}

#[test]
fn a_header_announces_exactly_its_payload() {
    for frame in [action(), launch(""), launch("reader")] {
        let bytes = encode(&frame).expect("encode");
        assert_eq!(announced_len(&bytes), Ok(bytes.len() - HEADER_LEN));
        assert!(bytes.len() <= HEADER_LEN + MAX_FRAME_LEN);
        let mut longer = bytes.clone();
        longer.push(0);
        assert_eq!(decode(&longer), Err(ProtocolError::LengthMismatch));
        assert_eq!(decode(&bytes), Ok(frame));
    }
}

#[test]
fn frames_that_differ_are_different_bytes() {
    let frames = [
        action(),
        launch("a"),
        launch("b"),
        Frame {
            request_id: 2,
            ..launch("a")
        },
    ];
    for (index, left) in frames.iter().enumerate() {
        for (other, right) in frames.iter().enumerate() {
            assert_eq!(encode(left) == encode(right), index == other);
        }
    }
}

#[test]
fn part_of_a_header_is_truncated() {
    let bytes = encode(&action()).expect("encode");
    assert_eq!(
        decode(&bytes[..HEADER_LEN - 1]),
        Err(ProtocolError::Truncated)
    );
    assert_eq!(decode(&carrying(4, &[1, 2, 3])), Err(ProtocolError::Truncated));
}

#[test]
fn other_bytes_and_other_versions_are_refused() {
    let mut bytes = encode(&action()).expect("encode");
    bytes[0] = b'k';
    assert_eq!(decode(&bytes), Err(ProtocolError::BadMagic));
    bytes[0] = b'K';
    bytes[4] = VERSION + 1;
    assert_eq!(
        decode(&bytes),
        Err(ProtocolError::UnsupportedVersion(VERSION + 1))
    );
}

#[test]
fn a_message_nobody_knows_is_refused() {
    assert_eq!(
        decode(&carrying(28, &[])),
        Err(ProtocolError::UnknownMessageType(28))
    );
    assert_eq!(
        decode(&carrying(0, &[])),
        Err(ProtocolError::UnknownMessageType(0))
    );
}

#[test]
fn a_length_past_the_bound_is_refused_from_the_header_alone() {
    let mut bytes = carrying(6, &[]);
    bytes[6..10].copy_from_slice(&u32::try_from(MAX_FRAME_LEN).expect("bound").to_be_bytes());
    assert_eq!(announced_len(&bytes), Ok(MAX_FRAME_LEN));
    assert_eq!(decode(&bytes), Err(ProtocolError::LengthMismatch));
    bytes[6..10].copy_from_slice(
        &u32::try_from(MAX_FRAME_LEN + 1)
            .expect("bound")
            .to_be_bytes(),
    );
    assert_eq!(announced_len(&bytes), Err(ProtocolError::FrameTooLarge));
    assert_eq!(decode(&bytes), Err(ProtocolError::FrameTooLarge));
}

#[test]
fn payloads_end_where_their_messages_do() {
    assert_eq!(
        decode(&carrying(4, &[0, 0, 0, 1, 0])),
        Err(ProtocolError::LengthMismatch)
    );
}

#[test]
fn text_is_decoded_or_refused() {
    assert_eq!(
        decode(&carrying(12, &[0, 3, 0xe2, 0x82, 0xac])),
        Ok(launch("\u{20ac}"))
    );
    assert_eq!(
        decode(&carrying(12, &[0, 2, 0xe2, 0x82])),
        Err(ProtocolError::InvalidUtf8)
    );
    assert_eq!(
        decode(&carrying(12, &[0, 1, 0xff])),
        Err(ProtocolError::InvalidUtf8)
    );
}

#[test]
fn text_is_counted_in_bytes_at_both_ends() {
    let longest = "a".repeat(MAX_STRING_LEN);
    assert!(encode(&launch(&longest)).is_ok());
    assert_eq!(
        encode(&launch(&format!("{longest}a"))),
        Err(ProtocolError::StringTooLarge)
    );
    assert_eq!(
        encode(&launch(&"\u{20ac}".repeat(MAX_STRING_LEN / 3 + 1))),
        Err(ProtocolError::StringTooLarge)
    );
    let mut payload = vec![0x40, 0x01];
    payload.extend_from_slice(&[b'a'; MAX_STRING_LEN + 1]);
    assert_eq!(
        decode(&carrying(12, &payload)),
        Err(ProtocolError::StringTooLarge)
    );
}

#[test]
fn screens_are_bounded_in_depth_and_number() {
    let deepest = encode(&cards(MAX_DEPTH)).expect("deepest");
    assert_eq!(decode(&deepest), Ok(cards(MAX_DEPTH)));
    assert_eq!(encode(&cards(MAX_DEPTH + 1)), Err(ProtocolError::TooDeep));
    let many = |count| Frame {
        request_id: 1,
        message: Message::SetScreen(Screen::new(
            1,
            (0..count).map(|_| Node::Divider { id: NodeId(1) }).collect(),
        )),
    };
    assert!(encode(&many(MAX_NODES)).is_ok());
    assert_eq!(
        encode(&many(MAX_NODES + 1)),
        Err(ProtocolError::TooManyNodes)
    );
}

#[test]
fn a_value_nobody_knows_is_named_when_it_is_refused() {
    assert_eq!(
        decode(&carrying(27, &[2])),
        Err(ProtocolError::InvalidValue("page turn direction"))
    );
}

#[test]
fn what_was_read_is_sent_on_and_read_again_as_it_was() {
    let frame = Frame {
        request_id: 4,
        message: Message::SetScreen(Screen::new(
            1,
            vec![Node::Progress {
                id: NodeId(1),
                value: Percent::new(40),
            }],
        )),
    };
    let mut bytes = encode(&frame).expect("encode");
    let at = bytes
        .iter()
        .rposition(|byte| *byte == 40)
        .expect("the share");
    bytes[at] = 200;
    let read = decode(&bytes).expect("decode");
    let Message::SetScreen(screen) = &read.message else {
        panic!("a screen was read as something else");
    };
    assert!(matches!(&screen.nodes[0], Node::Progress { value, .. } if value.get() == 100));
    assert_eq!(decode(&encode(&read).expect("encode")), Ok(read));
}

#[test]
fn controls_a_top_bar_cannot_show_are_neither_counted_nor_sent() {
    let barred = |count: u32| {
        let mut bar = TopBar::new(NodeId(1), "Title");
        for action in 1..=count {
            bar.actions.push(BarAction::new(ActionId(action), "abc"));
        }
        Screen::new(1, Vec::new()).with_top_bar(bar)
    };
    let frame = |screen| Frame {
        request_id: 1,
        message: Message::SetScreen(screen),
    };
    let sent = encode(&frame(barred(3))).expect("encode");
    assert_eq!(sent, encode(&frame(barred(2))).expect("encode"));
    assert_eq!(decode(&sent), Ok(frame(barred(2))));
    let (kind, length) = encoded_message_layout(&frame(barred(3)).message).expect("layout");
    assert_eq!((kind, length), (3, sent.len() - HEADER_LEN));
}

#[test]
fn a_length_past_the_bound_only_grows_into_a_refusal() {
    assert_eq!(add_encoded_len(MAX_FRAME_LEN - 1, 1), Ok(MAX_FRAME_LEN));
    let refused = Err(ProtocolError::FrameTooLarge);
    assert_eq!(add_encoded_len(MAX_FRAME_LEN, 1), refused);
    assert_eq!(add_encoded_len(MAX_FRAME_LEN + 1, 0), refused);
    assert_eq!(add_encoded_len(usize::MAX, usize::MAX), refused);
}

#[test]
fn a_reader_that_cannot_read_stays_where_it_is() {
    let mut reader = Reader::new(&[1, 2, 3]);
    assert_eq!(reader.take(usize::MAX), Err(ProtocolError::Truncated));
    assert_eq!(reader.u32(), Err(ProtocolError::Truncated));
    assert_eq!(reader.take(2), Ok(&[1, 2][..]));
    assert_eq!(reader.u16(), Err(ProtocolError::Truncated));
    assert_eq!(reader.u8(), Ok(3));
    assert!(reader.is_finished());
}

fn fetching(url: String, max_bytes: u32) -> Frame {
    Frame {
        request_id: 1,
        message: Message::Spawn {
            task: TaskId(2),
            work: Task::Fetch {
                url,
                offset: 3,
                max_bytes,
                credential: Some(Credential::bearer("token")),
                headers: vec![Header::new("Accept", "text/plain")],
            },
        },
    }
}

#[test]
fn work_comes_back_asking_for_no_more_than_an_answer_carries() {
    let url = || "https://example.com/a".to_owned();
    let asked = encode(&fetching(url(), u32::MAX)).expect("encode");
    assert_eq!(decode(&asked), Ok(fetching(url(), MAX_TASK_BYTES_U32)));
    let modest = encode(&fetching(url(), 10)).expect("encode");
    assert_eq!(decode(&modest), Ok(fetching(url(), 10)));
    let far = encode(&fetching("a".repeat(MAX_URL_LEN + 1), 10)).expect("encode");
    assert_eq!(decode(&far), Err(ProtocolError::StringTooLarge));
}

#[test]
fn work_that_may_be_sent_is_sent_and_read() {
    let largest = Task::Post {
        url: "a".repeat(MAX_URL_LEN),
        body: "b".repeat(MAX_POST_BODY_LEN),
        content_type: "c".repeat(MAX_STRING_LEN),
        credential: Some(Credential::in_header(
            &"s".repeat(MAX_HEADER_NAME),
            &"H".repeat(MAX_HEADER_NAME),
        )),
        headers: (0..MAX_HEADERS)
            .map(|_| Header::new(&"N".repeat(MAX_HEADER_NAME), &"v".repeat(MAX_HEADER_VALUE)))
            .collect(),
        max_bytes: 1,
    };
    assert!(largest.is_sendable());
    let frame = Frame {
        request_id: 1,
        message: Message::Spawn {
            task: TaskId(2),
            work: largest,
        },
    };
    assert_eq!(decode(&encode(&frame).expect("encode")), Ok(frame));
}

#[test]
fn a_text_that_is_too_long_is_not_begun() {
    let longest = "a".repeat(MAX_STRING_LEN);
    let mut output = Vec::new();
    assert_eq!(push_string(&mut output, &longest), Ok(()));
    assert_eq!(add_text_len(0, &longest), Ok(output.len()));
    let mut reader = Reader::new(&output);
    assert_eq!(reader.string(), Ok(longest.clone()));
    assert!(reader.is_finished());
    let mut output = vec![7];
    let refused = Err(ProtocolError::StringTooLarge);
    assert_eq!(push_string(&mut output, &format!("{longest}a")), refused);
    assert_eq!(
        push_long_string(&mut output, &"a".repeat(MAX_POST_BODY_LEN + 1)),
        refused
    );
    assert_eq!(output, vec![7]);
    assert_eq!(push_long_string(&mut output, "ab"), Ok(()));
    assert_eq!(output, vec![7, 0, 0, 0, 2, 97, 98]);
}
