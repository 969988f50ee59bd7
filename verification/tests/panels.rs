use kobo::error::ProtocolError;
use kobo::frame::{decode, encode};
use kobo::message::{Frame, Message};
use kobo::picture::PictureFormat;
use kobo::ui::TextScale;

#[test]
fn lifecycle_started_metrics_round_trip_with_picture_format() {
    let frame = Frame {
        request_id: 7,
        message: Message::Welcome {
            width: 1264,
            height: 1680,
            pixels_per_inch: 300,
            text_scale: TextScale::Large,
            picture_format: PictureFormat::Rgb8,
        },
    };
    let encoded = encode(&frame).expect("encode lifecycle");
    assert_eq!(decode(&encoded).expect("decode lifecycle"), frame);
}

#[test]
fn lifecycle_rejects_an_unknown_picture_format() {
    let mut encoded = encode(&Frame {
        request_id: 7,
        message: Message::Welcome {
            width: 1072,
            height: 1448,
            pixels_per_inch: 300,
            text_scale: TextScale::Default,
            picture_format: PictureFormat::Gray8,
        },
    })
    .expect("encode lifecycle");
    *encoded.last_mut().expect("picture format byte") = 2;
    assert_eq!(
        decode(&encoded),
        Err(ProtocolError::InvalidValue("picture format"))
    );
}
