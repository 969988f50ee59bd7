use kobo::builder::ScreenBuilder;
use kobo::client::{
    ends_the_wait, event, introduction, is_leaving, messages, next_request_id, welcomed,
    ClientEvent, FIRST_REQUEST,
};
use kobo::command::Command;
use kobo::context::DisplayMetrics;
use kobo::error::ProtocolError;
use kobo::frame::{decode, encode};
use kobo::limits::{MAX_INLINE_PICTURE_BYTES, MAX_PICTURE_CHUNK_BYTES};
use kobo::message::{Frame, Message};
use kobo::picture::{PictureFormat, PicturePixels};
use kobo::runner::TextHit;
use kobo::task::TaskId;
use kobo::ui::{ActionId, PictureHandle, TextScale};

fn over_the_wire(frame: Frame) -> Frame {
    decode(&encode(&frame).expect("encode")).expect("decode")
}

#[test]
fn lifecycle_supplies_client_metrics_and_screen_delivery() {
    let hello = over_the_wire(introduction("counter"));
    assert!(matches!(hello.message, Message::Hello { .. }));
    let welcome = over_the_wire(Frame {
        request_id: hello.request_id,
        message: Message::Welcome {
            width: 1072,
            height: 1448,
            pixels_per_inch: 300,
            text_scale: TextScale::Default,
            picture_format: PictureFormat::Rgb8,
        },
    });
    assert_eq!(
        welcomed(&welcome.message),
        Some(DisplayMetrics {
            picture_format: PictureFormat::Rgb8,
            ..DisplayMetrics::default()
        })
    );
    let sent = messages(Command::SetScreen(
        ScreenBuilder::new("counter").heading("Counter").build(),
    ))
    .expect("send screen");
    assert_eq!(sent.len(), 1);
    for message in sent {
        let frame = over_the_wire(Frame {
            request_id: FIRST_REQUEST,
            message,
        });
        assert!(matches!(frame.message, Message::SetScreen(_)));
    }
}

#[test]
fn anything_but_a_welcome_is_not_a_runtime() {
    assert_eq!(welcomed(&Message::Exit), None);
}

#[test]
fn client_transparently_chunks_a_full_width_picture() {
    let sent = messages(Command::PutPicture {
        handle: PictureHandle(9),
        width: 1072,
        height: 1448,
        pixels: PicturePixels::Rgb8(vec![127; 3 * 1072 * 1448]),
    })
    .expect("upload");
    let mut sent = sent.into_iter().map(|message| {
        over_the_wire(Frame {
            request_id: FIRST_REQUEST,
            message,
        })
        .message
    });
    assert!(matches!(
        sent.next(),
        Some(Message::BeginPicture {
            handle: PictureHandle(9),
            width: 1072,
            height: 1448,
            format: PictureFormat::Rgb8,
        })
    ));
    let expected = 3 * 1072_usize * 1448;
    let mut received = 0;
    while received < expected {
        let Some(Message::PictureChunk {
            handle,
            offset,
            bytes,
        }) = sent.next()
        else {
            panic!("expected a picture chunk");
        };
        assert_eq!(handle, PictureHandle(9));
        assert_eq!(usize::try_from(offset).expect("offset"), received);
        assert!(bytes.len() <= MAX_PICTURE_CHUNK_BYTES);
        received += bytes.len();
    }
    assert!(matches!(
        sent.next(),
        Some(Message::CommitPicture {
            handle: PictureHandle(9)
        })
    ));
    assert!(sent.next().is_none());
}

#[test]
fn a_small_picture_goes_whole_and_a_wrong_one_does_not_go() {
    let picture = |width, bytes| {
        messages(Command::PutPicture {
            handle: PictureHandle(9),
            width,
            height: 1,
            pixels: PicturePixels::Gray8(bytes),
        })
    };
    assert!(matches!(
        picture(4, vec![0; 4]).expect("small").as_slice(),
        [Message::PutPicture { .. }]
    ));
    let inline = MAX_INLINE_PICTURE_BYTES;
    assert_eq!(
        picture(inline as u32, vec![0; inline]).expect("inline").len(),
        1
    );
    assert_eq!(
        picture(inline as u32 + 1, vec![0; inline + 1])
            .expect("chunked")
            .len(),
        6
    );
    assert_eq!(
        picture(4, vec![0; 5]),
        Err(ProtocolError::InvalidValue("picture size"))
    );
    assert_eq!(
        picture(0, Vec::new()),
        Err(ProtocolError::InvalidValue("picture size"))
    );
    assert_eq!(
        picture(8_000_000, vec![0; 8_000_000]),
        Err(ProtocolError::FrameTooLarge)
    );
}

#[test]
fn every_plain_command_is_one_message() {
    assert_eq!(
        messages(Command::Cancel(TaskId(4))),
        Ok(vec![Message::Cancel { task: TaskId(4) }])
    );
    assert_eq!(
        messages(Command::Launch("notes".into())),
        Ok(vec![Message::Launch {
            name: "notes".into(),
        }])
    );
    assert_eq!(messages(Command::Exit), Ok(vec![Message::Exit]));
    assert!(is_leaving(&vec![Command::Cancel(TaskId(4)), Command::Exit]));
    assert!(!is_leaving(&vec![Command::Cancel(TaskId(4))]));
}

#[test]
fn request_numbers_start_over_without_being_the_introduction() {
    assert_eq!(next_request_id(FIRST_REQUEST), 3);
    assert_eq!(next_request_id(u32::MAX), 2);
    assert_eq!(next_request_id(0), 2);
}

#[test]
fn messages_for_an_application_are_events_and_others_are_not() {
    let held = event(Message::TextHold {
        action: ActionId(3),
        context: 5,
        start: 1,
        end: 4,
    });
    assert_eq!(
        held,
        Some(ClientEvent::TextHold {
            action: ActionId(3),
            hit: TextHit {
                context: 5,
                start: 1,
                end: 4,
            },
        })
    );
    assert!(ends_the_wait(&held.expect("an event")));
    let turned = event(Message::PageTurn { forward: true });
    assert_eq!(turned, Some(ClientEvent::PageTurn(true)));
    assert!(!ends_the_wait(&turned.expect("an event")));
    assert_eq!(event(Message::Exit), Some(ClientEvent::Exit));
    assert_eq!(
        event(Message::Hello {
            name: "counter".into(),
        }),
        None
    );
}
