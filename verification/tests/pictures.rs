use kobo::client::messages;
use kobo::error::ProtocolError;
use kobo::frame::{decode, encode};
use kobo::glyph::Glyph;
use kobo::limits::{HEADER_LEN, MAGIC, MAX_FONT_BYTES, MAX_INLINE_PICTURE_BYTES, MAX_PICTURE_BYTES, MAX_PICTURE_CHUNK_BYTES, VERSION};
use kobo::message::{Frame, Message};
use kobo::message_codec::take_exact_picture_body;
use kobo::picture::{PictureFormat, PicturePixels};
use kobo::task::{Credential, Task, TaskId};
use kobo::ui::{ActionId, FontHandle, Node, NodeId, PictureHandle, Screen, Tile, TilePicture, TileShape};
use kobo::wire::Reader;

#[test]
fn a_picture_on_a_shelf_survives_the_wire() {
    let screen = Screen::new(
        9,
        vec![
            Node::TileGrid {
                id: NodeId(1),
                tiles: vec![
                    Tile::new(ActionId(11), "Waiting", Glyph::Book),
                    Tile::new(ActionId(12), "Moby Dick", Glyph::Book)
                        .with_picture(TilePicture::new(PictureHandle(7), 190, 300)),
                ],
                shape: TileShape::Portrait,
            },
            Node::Picture {
                id: NodeId(2),
                handle: PictureHandle(7),
                source: (190, 300),
                max_height_tenths_mm: 600,
                framed: true,
            },
        ],
    );
    let frame = Frame {
        request_id: 3,
        message: Message::SetScreen(screen),
    };
    let bytes = encode(&frame).expect("encode");
    assert_eq!(decode(&bytes).expect("decode"), frame);
}

#[test]
fn gray_picture_round_trips_with_its_format() {
    let frame = Frame {
        request_id: 1,
        message: Message::PutPicture {
            handle: PictureHandle(4),
            width: 3,
            height: 2,
            pixels: PicturePixels::Gray8(vec![0, 32, 64, 96, 128, 160]),
        },
    };
    assert_eq!(
        decode(&encode(&frame).expect("encode")).expect("decode"),
        frame
    );
}

#[test]
fn rgb_picture_round_trips_with_its_format() {
    let frame = Frame {
        request_id: 1,
        message: Message::PutPicture {
            handle: PictureHandle(4),
            width: 2,
            height: 1,
            pixels: PicturePixels::Rgb8(vec![1, 2, 3, 4, 5, 6]),
        },
    };
    assert_eq!(
        decode(&encode(&frame).expect("encode")).expect("decode"),
        frame
    );
}

#[test]
fn a_picture_whose_size_disagrees_with_its_bytes_is_refused() {
    let refused = encode(&Frame {
        request_id: 1,
        message: Message::PutPicture {
            handle: PictureHandle(4),
            width: 100,
            height: 100,
            pixels: PicturePixels::Gray8(vec![0; 99]),
        },
    });
    assert!(matches!(refused, Err(ProtocolError::InvalidValue(_))));
}

#[test]
fn a_picture_larger_than_a_frame_is_refused() {
    let refused = encode(&Frame {
        request_id: 1,
        message: Message::PutPicture {
            handle: PictureHandle(4),
            width: u32::try_from(MAX_INLINE_PICTURE_BYTES + 1).expect("fits"),
            height: 1,
            pixels: PicturePixels::Gray8(vec![0; MAX_INLINE_PICTURE_BYTES + 1]),
        },
    });
    assert!(matches!(refused, Err(ProtocolError::FrameTooLarge)));
}

#[test]
fn every_phase_of_an_rgb_picture_upload_survives_the_wire() {
    let messages = [
        Message::BeginPicture {
            handle: PictureHandle(4),
            width: 1072,
            height: 1448,
            format: PictureFormat::Rgb8,
        },
        Message::PictureChunk {
            handle: PictureHandle(4),
            offset: 0,
            bytes: vec![17; 4096],
        },
        Message::CommitPicture {
            handle: PictureHandle(4),
        },
    ];
    for message in messages {
        let frame = Frame {
            request_id: 1,
            message,
        };
        let bytes = encode(&frame).expect("encode");
        assert_eq!(decode(&bytes).expect("decode"), frame);
    }
}

#[test]
fn a_picture_chunk_is_independently_bounded() {
    let refused = encode(&Frame {
        request_id: 1,
        message: Message::PictureChunk {
            handle: PictureHandle(4),
            offset: 0,
            bytes: vec![0; MAX_PICTURE_CHUNK_BYTES + 1],
        },
    });
    assert!(matches!(refused, Err(ProtocolError::FrameTooLarge)));
}

fn raw_picture_frame(kind: u8, width: u32, height: u32, format: u8, body: &[u8]) -> Vec<u8> {
    let payload_len = 13 + body.len();
    let mut bytes = Vec::with_capacity(HEADER_LEN + payload_len);
    bytes.extend_from_slice(&MAGIC);
    bytes.push(VERSION);
    bytes.push(kind);
    bytes.extend_from_slice(
        &u32::try_from(payload_len)
            .expect("payload fits")
            .to_be_bytes(),
    );
    bytes.extend_from_slice(&1_u32.to_be_bytes());
    bytes.extend_from_slice(&4_u32.to_be_bytes());
    bytes.extend_from_slice(&width.to_be_bytes());
    bytes.extend_from_slice(&height.to_be_bytes());
    bytes.push(format);
    bytes.extend_from_slice(body);
    bytes
}

#[test]
fn declared_rgb_picture_bodies_with_five_or_seven_bytes_are_refused_before_allocation() {
    for (body, error) in [
        (&[1, 2, 3, 4, 5][..], ProtocolError::Truncated),
        (&[1, 2, 3, 4, 5, 6, 7][..], ProtocolError::LengthMismatch),
    ] {
        let mut reader = Reader::new(body);
        assert_eq!(take_exact_picture_body(&mut reader, 6), Err(error.clone()));
        assert_eq!(decode(&raw_picture_frame(18, 2, 1, 1, body)), Err(error));
    }
}

#[test]
fn an_unknown_picture_format_is_refused() {
    assert!(matches!(
        decode(&raw_picture_frame(18, 1, 1, 2, &[0])),
        Err(ProtocolError::InvalidValue("picture format"))
    ));
}

#[test]
fn an_oversized_picture_is_refused_from_metadata_alone() {
    let width = u32::try_from(MAX_PICTURE_BYTES + 1).expect("picture bound fits u32");
    assert!(matches!(
        decode(&raw_picture_frame(20, width, 1, 0, &[])),
        Err(ProtocolError::FrameTooLarge)
    ));
}

#[test]
fn releasing_a_picture_survives_the_wire() {
    let frame = Frame {
        request_id: 8,
        message: Message::DropPicture {
            handle: PictureHandle(4),
        },
    };
    let bytes = encode(&frame).expect("encode");
    assert_eq!(decode(&bytes).expect("decode"), frame);
}

#[test]
fn a_publisher_font_travels_once_and_is_bounded() {
    let message = Message::PutFont {
        handle: FontHandle(7),
        name: "Book.otf".into(),
        bytes: b"OTTOfixture".to_vec(),
    };
    let frame = Frame {
        request_id: 1,
        message: message.clone(),
    };
    let bytes = encode(&frame).expect("encode font");
    assert_eq!(decode(&bytes).expect("decode font").message, message);

    let oversized = Frame {
        request_id: 1,
        message: Message::PutFont {
            handle: FontHandle(8),
            name: "huge.ttf".into(),
            bytes: vec![0; MAX_FONT_BYTES + 1],
        },
    };
    assert!(matches!(
        encode(&oversized),
        Err(ProtocolError::FrameTooLarge)
    ));
}

#[test]
fn an_unknown_tile_shape_is_refused_rather_than_guessed() {
    let frame = Frame {
        request_id: 1,
        message: Message::SetScreen(Screen::new(
            1,
            vec![Node::TileGrid {
                id: NodeId(1),
                tiles: Vec::new(),
                shape: TileShape::Square,
            }],
        )),
    };
    let mut bytes = encode(&frame).expect("encode");
    let shape = bytes.len() - 3;
    assert_eq!(bytes[shape], 0, "square");
    bytes[shape] = 9;
    assert!(matches!(
        decode(&bytes),
        Err(ProtocolError::InvalidValue("tile shape"))
    ));
}
#[test]
fn a_basic_credential_survives_an_encode_decode_round_trip() {
    let work = Task::Post {
        url: "https://standardebooks.example/feeds/opds/all".to_owned(),
        body: String::new(),
        content_type: "application/x-www-form-urlencoded".to_owned(),
        credential: Some(Credential::basic("standardebooks")),
        headers: Vec::new(),
        max_bytes: 1024,
    };
    let frame = Frame {
        request_id: 1,
        message: Message::Spawn {
            task: TaskId(1),
            work: work.clone(),
        },
    };
    let bytes = encode(&frame).expect("encodes");
    let Message::Spawn { work: back, .. } = decode(&bytes).expect("decodes").message else {
        panic!("not a spawn");
    };
    assert_eq!(back, work);
}
