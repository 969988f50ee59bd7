//! What can be sent, and what is refused.

use vstd::prelude::*;

use crate::error::ProtocolError;
use crate::frame;
use crate::item;
use crate::limits::{
    MAX_FONT_BYTES, MAX_FRAME_LEN, MAX_INLINE_PICTURE_BYTES, MAX_LISTED_KEYS, MAX_PICTURE_BYTES,
    MAX_PICTURE_CHUNK_BYTES, MAX_SHELF_CHUNK, MAX_SHELL_CHUNK, MAX_STORE_KEYS, MAX_STORE_VALUE,
    MAX_STRING_LEN, MAX_TASK_BYTES,
};
use crate::message::{FrameModel, MessageModel};
use crate::message_codec;
use crate::picture;
use crate::picture::{PictureFormat, PicturePixelsModel};
use crate::shell::{ShellEventModel, ShellRequestModel};
use crate::store::{StoreRequestModel, StoreResultModel};
use crate::store_codec;
use crate::task::{TaskId, TaskOutcomeModel};
use crate::ui::PictureHandle;
use crate::wire;

verus! {

/// A text that is no longer than the wire takes.
pub open spec fn short(text: Seq<char>) -> bool {
    wire::utf8_len(text) <= MAX_STRING_LEN
}

/// What becomes of a message that is sent under a number.
pub open spec fn posted(request_id: u32, message: MessageModel) -> Result<Seq<u8>, ProtocolError> {
    frame::encoded(FrameModel { request_id, message })
}

// ---------------------------------------------------------------------------
// The store.

/// Every store request within the stated limits can be sent, up to the last
/// byte that a limit allows; past a limit, the limit that was passed is named.
pub proof fn law_store_requests_are_sent(request_id: u32, request: StoreRequestModel)
    ensures
        ({
            let sent = posted(request_id, MessageModel::StoreRequest(request));
            match request {
                StoreRequestModel::Save { key, value } => {
                    &&& sent is Ok <==> short(key) && value.len() <= MAX_STORE_VALUE
                    &&& value.len() > MAX_STORE_VALUE ==> sent == Err::<Seq<u8>, _>(
                        ProtocolError::FrameTooLarge,
                    )
                },
                StoreRequestModel::ShelfWrite { name, offset, bytes, last } => {
                    &&& sent is Ok <==> short(name) && bytes.len() <= MAX_SHELF_CHUNK
                    &&& bytes.len() > MAX_SHELF_CHUNK ==> sent == Err::<Seq<u8>, _>(
                        ProtocolError::FrameTooLarge,
                    )
                },
                StoreRequestModel::Load { key } => sent is Ok <==> short(key),
                StoreRequestModel::Forget { key } => sent is Ok <==> short(key),
                StoreRequestModel::ShelfRead { name, offset, length } => sent is Ok <==> short(
                    name,
                ),
                StoreRequestModel::ShelfRemove { name } => sent is Ok <==> short(name),
                StoreRequestModel::List => sent is Ok,
                StoreRequestModel::ShelfList => sent is Ok,
            }
        }),
{
    reveal(message_codec::message_size);
    reveal(store_codec::request_size);
}

/// Names whose texts and lengths fit, counted after `total` bytes.
proof fn lemma_keys_are_counted(keys: Seq<Seq<char>>, total: int)
    requires
        forall|i: int| 0 <= i < keys.len() ==> short(#[trigger] keys[i]),
        0 <= total,
        total + keys.len() * 16_386 <= MAX_FRAME_LEN,
    ensures
        item::grown_by_all::<String>(keys, Ok(total)) is Ok,
        item::grown_by_all::<String>(keys, Ok(total))->Ok_0 <= total + keys.len() * 16_386,
    decreases keys.len(),
{
    if keys.len() > 0 {
        assert(short(keys[0]));
        lemma_keys_are_counted(keys.drop_first(), total + 2 + wire::utf8_len(keys[0]));
    }
}

/// Listed blobs whose names fit, counted after `total` bytes.
proof fn lemma_blobs_are_counted(blobs: Seq<(Seq<char>, u32)>, total: int)
    requires
        forall|i: int| 0 <= i < blobs.len() ==> short((#[trigger] blobs[i]).0),
        0 <= total,
        total + blobs.len() * 16_390 <= MAX_FRAME_LEN,
    ensures
        item::grown_by_all::<(String, u32)>(blobs, Ok(total)) is Ok,
        item::grown_by_all::<(String, u32)>(blobs, Ok(total))->Ok_0 <= total + blobs.len()
            * 16_390,
    decreases blobs.len(),
{
    if blobs.len() > 0 {
        assert(short(blobs[0].0));
        lemma_blobs_are_counted(blobs.drop_first(), total + 6 + wire::utf8_len(blobs[0].0));
    }
}

/// Every store answer within the stated limits can be sent, up to the last
/// byte and the last name that a limit allows.
pub proof fn law_store_results_are_sent(request_id: u32, result: StoreResultModel)
    ensures
        ({
            let sent = posted(request_id, MessageModel::StoreResult(result));
            match result {
                StoreResultModel::Saved { key } => sent is Ok <==> short(key),
                StoreResultModel::Forgotten { key } => sent is Ok <==> short(key),
                StoreResultModel::Loaded { key, value } => sent is Ok <==> short(key) && (value
                    is Some ==> value->0.len() <= MAX_STORE_VALUE),
                StoreResultModel::ShelfWritten { name, size } => sent is Ok <==> short(name),
                StoreResultModel::ShelfRemoved { name } => sent is Ok <==> short(name),
                StoreResultModel::ShelfRead { name, offset, bytes, size } => sent is Ok <==> short(
                    name,
                ) && bytes.len() <= MAX_SHELF_CHUNK,
                StoreResultModel::Denied(error) => sent is Ok,
                StoreResultModel::Keys(keys) => {
                    &&& keys.len() > MAX_LISTED_KEYS ==> sent is Err
                    &&& keys.len() <= MAX_LISTED_KEYS && (forall|i: int|
                        0 <= i < keys.len() ==> short(#[trigger] keys[i])) ==> sent is Ok
                },
                StoreResultModel::Shelf(blobs) => {
                    &&& blobs.len() > MAX_STORE_KEYS ==> sent is Err
                    &&& blobs.len() <= MAX_STORE_KEYS && (forall|i: int|
                        0 <= i < blobs.len() ==> short((#[trigger] blobs[i]).0)) ==> sent is Ok
                },
            }
        }),
{
    reveal(message_codec::message_size);
    reveal(store_codec::result_size);
    match result {
        StoreResultModel::Keys(keys) => if keys.len() <= MAX_LISTED_KEYS && (forall|i: int|
            0 <= i < keys.len() ==> short(#[trigger] keys[i])) {
            lemma_keys_are_counted(keys, 3);
        },
        StoreResultModel::Shelf(blobs) => if blobs.len() <= MAX_STORE_KEYS && (forall|i: int|
            0 <= i < blobs.len() ==> short((#[trigger] blobs[i]).0)) {
            lemma_blobs_are_counted(blobs, 3);
        },
        _ => {},
    }
}

// ---------------------------------------------------------------------------
// Terminals and tasks.

/// A terminal carries any chunk up to the most that one message takes, and no
/// larger one; every other request is always sent.
pub proof fn law_shell_requests_are_sent(request_id: u32, request: ShellRequestModel)
    ensures
        ({
            let sent = posted(request_id, MessageModel::ShellRequest(request));
            match request {
                ShellRequestModel::Input(bytes) => {
                    &&& sent is Ok <==> bytes.len() <= MAX_SHELL_CHUNK
                    &&& sent is Err ==> sent->Err_0 == ProtocolError::FrameTooLarge
                },
                _ => sent is Ok,
            }
        }),
{
    reveal(message_codec::message_size);
}

/// What a terminal says comes in chunks up to the most that one message takes,
/// and in no larger one; every other event is always sent.
pub proof fn law_shell_events_are_sent(request_id: u32, event: ShellEventModel)
    ensures
        ({
            let sent = posted(request_id, MessageModel::ShellEvent(event));
            match event {
                ShellEventModel::Output(bytes) => {
                    &&& sent is Ok <==> bytes.len() <= MAX_SHELL_CHUNK
                    &&& sent is Err ==> sent->Err_0 == ProtocolError::FrameTooLarge
                },
                _ => sent is Ok,
            }
        }),
{
    reveal(message_codec::message_size);
}

/// A task may hand back anything up to the most that one answer carries; a
/// failure and a cancellation are always sent.
pub proof fn law_outcomes_are_sent(request_id: u32, task: TaskId, outcome: TaskOutcomeModel)
    ensures
        ({
            let sent = posted(request_id, MessageModel::TaskOutcome { task, outcome });
            match outcome {
                TaskOutcomeModel::Completed(bytes) => {
                    &&& sent is Ok <==> bytes.len() <= MAX_TASK_BYTES
                    &&& sent is Err ==> sent->Err_0 == ProtocolError::FrameTooLarge
                },
                TaskOutcomeModel::Failed(_) => sent is Ok,
                TaskOutcomeModel::Cancelled => sent is Ok,
            }
        }),
{
    reveal(message_codec::message_size);
}

// ---------------------------------------------------------------------------
// Pictures and fonts.

/// A picture goes out whole when its bytes are as many as its size says and no
/// more than one message takes.
pub proof fn law_whole_pictures_are_sent(
    request_id: u32,
    handle: PictureHandle,
    width: u32,
    height: u32,
    pixels: PicturePixelsModel,
)
    ensures
        ({
            let sent = posted(
                request_id,
                MessageModel::PutPicture { handle, width, height, pixels },
            );
            let area = width * height;
            let bytes = match pixels {
                PicturePixelsModel::Gray8(bytes) => bytes,
                PicturePixelsModel::Rgb8(bytes) => bytes,
            };
            let agrees = match pixels {
                PicturePixelsModel::Gray8(_) => bytes.len() == area,
                PicturePixelsModel::Rgb8(_) => bytes.len() == 3 * area,
            };
            sent is Ok <==> agrees && bytes.len() <= MAX_INLINE_PICTURE_BYTES
        }),
{
    reveal(message_codec::message_size);
    picture::law_pixels_take_one_byte_or_three(width, height);
}

/// A picture in pieces may begin when there is something in it and no more than
/// the runtime holds.
pub proof fn law_pictures_begin(
    request_id: u32,
    handle: PictureHandle,
    width: u32,
    height: u32,
    format: PictureFormat,
)
    ensures
        ({
            let sent = posted(
                request_id,
                MessageModel::BeginPicture { handle, width, height, format },
            );
            let area = width * height;
            let length = if format is Gray8 {
                area
            } else {
                3 * area
            };
            sent is Ok <==> 0 < length <= MAX_PICTURE_BYTES
        }),
{
    reveal(message_codec::message_size);
    picture::law_pixels_take_one_byte_or_three(width, height);
}

/// A piece of a picture is sent when there is something in it, no more than one
/// message takes, and it ends within the largest picture.
pub proof fn law_picture_chunks_are_sent(
    request_id: u32,
    handle: PictureHandle,
    offset: u32,
    bytes: Seq<u8>,
)
    ensures
        posted(request_id, MessageModel::PictureChunk { handle, offset, bytes }) is Ok <==> 0
            < bytes.len() <= MAX_PICTURE_CHUNK_BYTES && offset + bytes.len() <= MAX_PICTURE_BYTES,
{
    reveal(message_codec::message_size);
}

/// A font is sent when there is something in it, no more than the runtime
/// holds, and its name fits.
pub proof fn law_fonts_are_sent(
    request_id: u32,
    handle: crate::ui::FontHandle,
    name: Seq<char>,
    bytes: Seq<u8>,
)
    ensures
        posted(request_id, MessageModel::PutFont { handle, name, bytes }) is Ok <==> short(name)
            && 0 < bytes.len() <= MAX_FONT_BYTES,
{
    reveal(message_codec::message_size);
}

// ---------------------------------------------------------------------------
// The rest.

/// A message that is one text is sent when the text fits, and refused as too
/// long otherwise.
pub proof fn law_texts_are_sent(request_id: u32, message: MessageModel)
    ensures
        ({
            let sent = posted(request_id, message);
            let text = match message {
                MessageModel::Hello { name } => Some(name),
                MessageModel::Launch { name } => Some(name),
                MessageModel::Log { level, message } => Some(message),
                _ => None,
            };
            text is Some ==> {
                &&& sent is Ok <==> short(text->0)
                &&& sent is Err ==> sent->Err_0 == ProtocolError::StringTooLarge
            }
        }),
{
    reveal(message_codec::message_size);
}

/// What has a fixed size is always sent, and a held run of text when it has
/// anything in it.
pub proof fn law_fixed_messages_are_sent(request_id: u32, message: MessageModel)
    ensures
        ({
            let sent = posted(request_id, message);
            match message {
                MessageModel::TextHold { action, context, start, end } => sent is Ok <==> start
                    < end,
                MessageModel::Welcome { .. } => sent is Ok,
                MessageModel::Action { .. } => sent is Ok,
                MessageModel::Exit => sent is Ok,
                MessageModel::Cancel { .. } => sent is Ok,
                MessageModel::Lifecycle(_) => sent is Ok,
                MessageModel::CoverChanged { .. } => sent is Ok,
                MessageModel::PageTurn { .. } => sent is Ok,
                MessageModel::CommitPicture { .. } => sent is Ok,
                MessageModel::DropPicture { .. } => sent is Ok,
                MessageModel::DropFont { .. } => sent is Ok,
                _ => true,
            }
        }),
{
    reveal(message_codec::message_size);
}

} // verus!
