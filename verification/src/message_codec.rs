//! Messages on the wire.

use vstd::prelude::*;

use crate::device::LogLevel;
use crate::device_request;
use crate::device_request::{decode_device_request, device_request_len, encode_device_request};
use crate::device_result;
use crate::device_result::{decode_device_result, device_result_len, encode_device_result};
use crate::error::ProtocolError;
use crate::leaf_codec;
use crate::limits::{
    MAX_FONT_BYTES, MAX_FRAME_LEN, MAX_INLINE_PICTURE_BYTES, MAX_PICTURE_BYTES,
    MAX_PICTURE_CHUNK_BYTES,
};
use crate::message::{Message, MessageModel};
use crate::picture::{PictureFormat, PicturePixels, PicturePixelsModel};
use crate::screen;
use crate::screen_codec::{read_screen, screen_len, write_screen};
use crate::shell_codec;
use crate::shell_codec::{
    read_shell_event, read_shell_request, shell_event_len, shell_request_len, write_shell_event,
    write_shell_request,
};
use crate::store::Lifecycle;
use crate::store_codec;
use crate::store_codec::{
    read_request, read_result, request_len, result_len, write_request, write_result,
};
use crate::task::{TaskId, TaskModel};
use crate::task_codec;
use crate::task_codec::{
    outcome_len, read_outcome, read_task, task_len, write_outcome, write_task,
};
use crate::ui::{ActionId, FontHandle, PictureHandle, TextScale};
use crate::wire;
use crate::wire::{
    add_encoded_len, add_text_len, push_bytes, push_flag, push_string, push_u16, push_u32, push_u64,
    push_u8, Reader,
};

verus! {

// ---------------------------------------------------------------------------
// Small parts.

pub open spec fn scale_tag(scale: TextScale) -> u8 {
    match scale {
        TextScale::Default => 0,
        TextScale::Large => 1,
        TextScale::ExtraLarge => 2,
    }
}

pub open spec fn format_tag(format: PictureFormat) -> u8 {
    match format {
        PictureFormat::Gray8 => 0,
        PictureFormat::Rgb8 => 1,
    }
}

pub open spec fn lifecycle_tag(state: Lifecycle) -> u8 {
    match state {
        Lifecycle::Foreground => 0,
        Lifecycle::Background => 1,
    }
}

pub open spec fn parse_scale_tag(s: Seq<u8>) -> wire::Parsed<TextScale> {
    match wire::parse_u8(s) {
        Err(e) => Err(e),
        Ok((tag, s)) => if tag == 0 {
            Ok((TextScale::Default, s))
        } else if tag == 1 {
            Ok((TextScale::Large, s))
        } else if tag == 2 {
            Ok((TextScale::ExtraLarge, s))
        } else {
            Err(ProtocolError::InvalidValue("text scale"))
        },
    }
}

pub open spec fn parse_format(s: Seq<u8>) -> wire::Parsed<PictureFormat> {
    match wire::parse_u8(s) {
        Err(e) => Err(e),
        Ok((tag, s)) => if tag == 0 {
            Ok((PictureFormat::Gray8, s))
        } else if tag == 1 {
            Ok((PictureFormat::Rgb8, s))
        } else {
            Err(ProtocolError::InvalidValue("picture format"))
        },
    }
}

pub open spec fn parse_lifecycle(s: Seq<u8>) -> wire::Parsed<Lifecycle> {
    match wire::parse_u8(s) {
        Err(e) => Err(e),
        Ok((tag, s)) => if tag == 0 {
            Ok((Lifecycle::Foreground, s))
        } else if tag == 1 {
            Ok((Lifecycle::Background, s))
        } else {
            Err(ProtocolError::InvalidValue("lifecycle state"))
        },
    }
}

fn picture_format_tag(format: PictureFormat) -> (tag: u8)
    ensures
        tag == format_tag(format),
{
    match format {
        PictureFormat::Gray8 => 0,
        PictureFormat::Rgb8 => 1,
    }
}

fn take_picture_format(reader: &mut Reader<'_>) -> (result: Result<PictureFormat, ProtocolError>)
    ensures
        wire::yields(result, final(reader)@, parse_format(old(reader)@)),
{
    let tag: u8 = reader.u8()?;
    match tag {
        0 => Ok(PictureFormat::Gray8),
        1 => Ok(PictureFormat::Rgb8),
        _ => Err(ProtocolError::InvalidValue("picture format")),
    }
}

fn take_text_scale(reader: &mut Reader<'_>) -> (result: Result<TextScale, ProtocolError>)
    ensures
        wire::yields(result, final(reader)@, parse_scale_tag(old(reader)@)),
{
    let tag: u8 = reader.u8()?;
    match tag {
        0 => Ok(TextScale::Default),
        1 => Ok(TextScale::Large),
        2 => Ok(TextScale::ExtraLarge),
        _ => Err(ProtocolError::InvalidValue("text scale")),
    }
}

/// A handle and the measure of a picture.
pub open spec fn picture_head(
    handle: PictureHandle,
    width: u32,
    height: u32,
    format: PictureFormat,
) -> Seq<u8> {
    wire::be32(handle.0) + wire::be32(width) + wire::be32(height) + seq![format_tag(format)]
}

pub open spec fn parse_picture_head(s: Seq<u8>) -> wire::Parsed<
    (PictureHandle, u32, u32, PictureFormat),
> {
    match wire::parse_u32(s) {
        Err(e) => Err(e),
        Ok((handle, s)) => match wire::parse_u32(s) {
            Err(e) => Err(e),
            Ok((width, s)) => match wire::parse_u32(s) {
                Err(e) => Err(e),
                Ok((height, s)) => match parse_format(s) {
                    Err(e) => Err(e),
                    Ok((format, s)) => Ok(((PictureHandle(handle), width, height, format), s)),
                },
            },
        },
    }
}

proof fn lemma_picture_head_read_back(
    handle: PictureHandle,
    width: u32,
    height: u32,
    format: PictureFormat,
    rest: Seq<u8>,
)
    ensures
        parse_picture_head(picture_head(handle, width, height, format) + rest) == Ok::<
            _,
            ProtocolError,
        >(((handle, width, height, format), rest)),
{
    broadcast use wire::group_reading;

}

fn push_picture_head(
    output: &mut Vec<u8>,
    handle: PictureHandle,
    width: u32,
    height: u32,
    format: PictureFormat,
)
    ensures
        final(output)@ == old(output)@ + picture_head(handle, width, height, format),
{
    broadcast use wire::group_writing;

    push_u32(output, handle.0);
    push_u32(output, width);
    push_u32(output, height);
    push_u8(output, picture_format_tag(format));
}

fn read_picture_head(reader: &mut Reader<'_>) -> (result: Result<
    (PictureHandle, u32, u32, PictureFormat),
    ProtocolError,
>)
    ensures
        wire::yields(result, final(reader)@, parse_picture_head(old(reader)@)),
{
    let handle = PictureHandle(reader.u32()?);
    let width: u32 = reader.u32()?;
    let height: u32 = reader.u32()?;
    let format = take_picture_format(reader)?;
    Ok((handle, width, height, format))
}

// ---------------------------------------------------------------------------
// What a message is written as.

pub open spec fn message_kind(message: MessageModel) -> u8 {
    match message {
        MessageModel::Hello { .. } => 1,
        MessageModel::Welcome { .. } => 2,
        MessageModel::SetScreen(_) => 3,
        MessageModel::Action { .. } => 4,
        MessageModel::Log { .. } => 5,
        MessageModel::Exit => 6,
        MessageModel::DeviceRequest(_) => 7,
        MessageModel::DeviceResult(_) => 8,
        MessageModel::Spawn { .. } => 9,
        MessageModel::Cancel { .. } => 10,
        MessageModel::TaskOutcome { .. } => 11,
        MessageModel::Launch { .. } => 12,
        MessageModel::StoreRequest(_) => 13,
        MessageModel::StoreResult(_) => 14,
        MessageModel::Lifecycle(_) => 15,
        MessageModel::ShellRequest(_) => 16,
        MessageModel::ShellEvent(_) => 17,
        MessageModel::PutPicture { .. } => 18,
        MessageModel::DropPicture { .. } => 19,
        MessageModel::BeginPicture { .. } => 20,
        MessageModel::PictureChunk { .. } => 21,
        MessageModel::CommitPicture { .. } => 22,
        MessageModel::CoverChanged { .. } => 23,
        MessageModel::PutFont { .. } => 24,
        MessageModel::DropFont { .. } => 25,
        MessageModel::TextHold { .. } => 26,
        MessageModel::PageTurn { .. } => 27,
    }
}

#[verifier::opaque]
pub open spec fn message_bytes(message: MessageModel) -> Seq<u8> {
    match message {
        MessageModel::Hello { name } => wire::text_bytes(name),
        MessageModel::Welcome { width, height, pixels_per_inch, text_scale, picture_format } =>
            wire::be16(width) + wire::be16(height) + wire::be16(pixels_per_inch) + seq![
                scale_tag(text_scale),
            ] + seq![format_tag(picture_format)],
        MessageModel::SetScreen(screen) => screen::screen_bytes(screen),
        MessageModel::Action { action } => wire::be32(action.0),
        MessageModel::TextHold { action, context, start, end } => wire::be32(action.0) + wire::be64(
            context,
        ) + wire::be32(start) + wire::be32(end),
        MessageModel::Log { level, message } => seq![level.tag()] + wire::text_bytes(message),
        MessageModel::Exit => Seq::empty(),
        MessageModel::Launch { name } => wire::text_bytes(name),
        MessageModel::DeviceRequest(request) => device_request::device_request_bytes(request),
        MessageModel::DeviceResult(result) => device_result::device_result_bytes(result),
        MessageModel::Spawn { task, work } => wire::be32(task.0) + task_codec::task_bytes(work),
        MessageModel::Cancel { task } => wire::be32(task.0),
        MessageModel::TaskOutcome { task, outcome } => wire::be32(task.0)
            + task_codec::outcome_bytes(outcome),
        MessageModel::StoreRequest(request) => store_codec::request_bytes(request),
        MessageModel::StoreResult(result) => store_codec::result_bytes(result),
        MessageModel::Lifecycle(state) => seq![lifecycle_tag(state)],
        MessageModel::ShellRequest(request) => shell_codec::shell_request_bytes(request),
        MessageModel::ShellEvent(event) => shell_codec::shell_event_bytes(event),
        MessageModel::CoverChanged { magnet_present } => seq![wire::flag_byte(magnet_present)],
        MessageModel::PageTurn { forward } => seq![wire::flag_byte(forward)],
        MessageModel::PutPicture { handle, width, height, pixels } => picture_head(
            handle,
            width,
            height,
            pixels.format(),
        ) + pixels.bytes(),
        MessageModel::BeginPicture { handle, width, height, format } => picture_head(
            handle,
            width,
            height,
            format,
        ),
        MessageModel::PictureChunk { handle, offset, bytes } => wire::be32(handle.0) + wire::be32(
            offset,
        ) + bytes,
        MessageModel::CommitPicture { handle } => wire::be32(handle.0),
        MessageModel::DropPicture { handle } => wire::be32(handle.0),
        MessageModel::PutFont { handle, name, bytes } => wire::be32(handle.0) + wire::text_bytes(
            name,
        ) + bytes,
        MessageModel::DropFont { handle } => wire::be32(handle.0),
    }
}

/// The length of a whole picture: its declared measure and its bytes must
/// agree before anything is allocated on the strength of either.
pub open spec fn inline_picture_size(
    width: u32,
    height: u32,
    pixels: PicturePixelsModel,
) -> Result<int, ProtocolError> {
    let expected = pixels.format().size(width, height);
    if expected > usize::MAX {
        Err(ProtocolError::FrameTooLarge)
    } else if expected != pixels.bytes().len() {
        Err(ProtocolError::InvalidValue("picture size"))
    } else if expected > MAX_INLINE_PICTURE_BYTES {
        Err(ProtocolError::FrameTooLarge)
    } else {
        Ok(13 + expected)
    }
}

/// Whether a picture that comes in chunks is of a size the runtime takes.
pub open spec fn begins_picture(width: u32, height: u32, format: PictureFormat) -> bool {
    0 < format.size(width, height) <= MAX_PICTURE_BYTES
}

/// Whether a chunk lands within the largest picture.
pub open spec fn chunk_lands(offset: u32, length: int) -> bool {
    0 < length <= MAX_PICTURE_CHUNK_BYTES && offset + length <= MAX_PICTURE_BYTES
}

/// The length of a message's payload, or why it cannot be sent.
#[verifier::opaque]
pub open spec fn message_size(message: MessageModel) -> Result<int, ProtocolError> {
    match message {
        MessageModel::Hello { name } => wire::grown_text(Ok(0), name),
        MessageModel::Welcome { .. } => Ok(8),
        MessageModel::SetScreen(screen) => match screen::size_screen(screen, 0, 0) {
            Err(e) => Err(e),
            Ok((length, nodes)) => Ok(length),
        },
        MessageModel::Action { .. } => Ok(4),
        MessageModel::TextHold { action, context, start, end } => if start >= end {
            Err(ProtocolError::InvalidValue("text hold range"))
        } else {
            Ok(20)
        },
        MessageModel::Log { level, message } => wire::grown_text(Ok(1), message),
        MessageModel::Exit => Ok(0),
        MessageModel::Launch { name } => wire::grown_text(Ok(0), name),
        MessageModel::DeviceRequest(request) => device_request::device_request_size(request),
        MessageModel::DeviceResult(result) => device_result::device_result_size(result),
        MessageModel::Spawn { task, work } => task_codec::task_size(work),
        MessageModel::Cancel { .. } => Ok(4),
        MessageModel::TaskOutcome { task, outcome } => task_codec::outcome_size(outcome),
        MessageModel::StoreRequest(request) => store_codec::request_size(request),
        MessageModel::StoreResult(result) => store_codec::result_size(result),
        MessageModel::Lifecycle(_) => Ok(1),
        MessageModel::ShellRequest(request) => shell_codec::shell_request_size(request),
        MessageModel::ShellEvent(event) => shell_codec::shell_event_size(event),
        MessageModel::CoverChanged { .. } => Ok(1),
        MessageModel::PageTurn { .. } => Ok(1),
        MessageModel::PutPicture { handle, width, height, pixels } => inline_picture_size(
            width,
            height,
            pixels,
        ),
        MessageModel::BeginPicture { handle, width, height, format } => if begins_picture(
            width,
            height,
            format,
        ) {
            Ok(13)
        } else {
            Err(ProtocolError::FrameTooLarge)
        },
        MessageModel::PictureChunk { handle, offset, bytes } => if chunk_lands(
            offset,
            bytes.len() as int,
        ) {
            Ok(8 + bytes.len() as int)
        } else {
            Err(ProtocolError::FrameTooLarge)
        },
        MessageModel::CommitPicture { .. } => Ok(4),
        MessageModel::DropPicture { .. } => Ok(4),
        MessageModel::PutFont { handle, name, bytes } => if bytes.len() == 0 || bytes.len()
            > MAX_FONT_BYTES {
            Err(ProtocolError::FrameTooLarge)
        } else {
            wire::grown(wire::grown_text(Ok(4), name), bytes.len() as int)
        },
        MessageModel::DropFont { .. } => Ok(4),
    }
}

/// What is refused while a message is written, once its length is known.
pub open spec fn message_refusal(message: MessageModel) -> Option<ProtocolError> {
    match message {
        MessageModel::SetScreen(screen) => screen::screen_refusal(screen),
        _ => None,
    }
}

/// Whether a message says nothing that the wire would drop, clip or refuse.
pub open spec fn message_faithful(message: MessageModel) -> bool {
    match message {
        MessageModel::SetScreen(screen) => screen::screen_faithful(screen),
        MessageModel::DeviceRequest(request) => device_request::device_request_faithful(request),
        MessageModel::DeviceResult(result) => device_result::device_result_faithful(result),
        MessageModel::Spawn { task, work } => task_codec::task_faithful(work),
        _ => true,
    }
}

// ---------------------------------------------------------------------------
// What reading makes of a payload.

pub open spec fn parse_named(s: Seq<u8>, launch: bool) -> wire::Parsed<MessageModel> {
    match wire::parse_text(s) {
        Err(e) => Err(e),
        Ok((name, s)) => if launch {
            Ok((MessageModel::Launch { name }, s))
        } else {
            Ok((MessageModel::Hello { name }, s))
        },
    }
}

pub open spec fn parse_welcome(s: Seq<u8>) -> wire::Parsed<MessageModel> {
    match wire::parse_u16(s) {
        Err(e) => Err(e),
        Ok((width, s)) => match wire::parse_u16(s) {
            Err(e) => Err(e),
            Ok((height, s)) => match wire::parse_u16(s) {
                Err(e) => Err(e),
                Ok((pixels_per_inch, s)) => match parse_scale_tag(s) {
                    Err(e) => Err(e),
                    Ok((text_scale, s)) => match parse_format(s) {
                        Err(e) => Err(e),
                        Ok((picture_format, s)) => Ok(
                            (
                                MessageModel::Welcome {
                                    width,
                                    height,
                                    pixels_per_inch,
                                    text_scale,
                                    picture_format,
                                },
                                s,
                            ),
                        ),
                    },
                },
            },
        },
    }
}

pub open spec fn parse_text_hold(s: Seq<u8>) -> wire::Parsed<MessageModel> {
    match wire::parse_u32(s) {
        Err(e) => Err(e),
        Ok((action, s)) => match wire::parse_u64(s) {
            Err(e) => Err(e),
            Ok((context, s)) => match wire::parse_u32(s) {
                Err(e) => Err(e),
                Ok((start, s)) => match wire::parse_u32(s) {
                    Err(e) => Err(e),
                    Ok((end, s)) => if start >= end {
                        Err(ProtocolError::InvalidValue("text hold range"))
                    } else {
                        Ok(
                            (
                                MessageModel::TextHold {
                                    action: ActionId(action),
                                    context,
                                    start,
                                    end,
                                },
                                s,
                            ),
                        )
                    },
                },
            },
        },
    }
}

pub open spec fn parse_log(s: Seq<u8>) -> wire::Parsed<MessageModel> {
    match wire::parse_u8(s) {
        Err(e) => Err(e),
        Ok((tag, s)) => match LogLevel::of_tag(tag) {
            Err(e) => Err(e),
            Ok(level) => match wire::parse_text(s) {
                Err(e) => Err(e),
                Ok((message, s)) => Ok((MessageModel::Log { level, message }, s)),
            },
        },
    }
}

pub open spec fn parse_spawn(s: Seq<u8>) -> wire::Parsed<MessageModel> {
    match wire::parse_u32(s) {
        Err(e) => Err(e),
        Ok((task, s)) => match task_codec::parse_task(s) {
            Err(e) => Err(e),
            Ok((work, s)) => Ok((MessageModel::Spawn { task: TaskId(task), work }, s)),
        },
    }
}

pub open spec fn parse_task_outcome(s: Seq<u8>) -> wire::Parsed<MessageModel> {
    match wire::parse_u32(s) {
        Err(e) => Err(e),
        Ok((task, s)) => match task_codec::parse_outcome(s) {
            Err(e) => Err(e),
            Ok((outcome, s)) => Ok((MessageModel::TaskOutcome { task: TaskId(task), outcome }, s)),
        },
    }
}

/// The pixels a format and bytes make.
pub open spec fn pixels_of(format: PictureFormat, bytes: Seq<u8>) -> PicturePixelsModel {
    match format {
        PictureFormat::Gray8 => PicturePixelsModel::Gray8(bytes),
        PictureFormat::Rgb8 => PicturePixelsModel::Rgb8(bytes),
    }
}

/// Exactly the bytes of a picture must be left.
pub open spec fn parse_put_picture(s: Seq<u8>) -> wire::Parsed<MessageModel> {
    match parse_picture_head(s) {
        Err(e) => Err(e),
        Ok(((handle, width, height, format), s)) => {
            let expected = format.size(width, height);
            if expected > usize::MAX || expected > MAX_INLINE_PICTURE_BYTES {
                Err(ProtocolError::FrameTooLarge)
            } else {
                match parse_exactly(s, expected) {
                    Err(e) => Err(e),
                    Ok((bytes, s)) => Ok(
                        (
                            MessageModel::PutPicture {
                                handle,
                                width,
                                height,
                                pixels: pixels_of(format, bytes),
                            },
                            s,
                        ),
                    ),
                }
            }
        },
    }
}

pub open spec fn parse_begin_picture(s: Seq<u8>) -> wire::Parsed<MessageModel> {
    match parse_picture_head(s) {
        Err(e) => Err(e),
        Ok(((handle, width, height, format), s)) => if begins_picture(width, height, format) {
            Ok((MessageModel::BeginPicture { handle, width, height, format }, s))
        } else {
            Err(ProtocolError::FrameTooLarge)
        },
    }
}

/// A chunk is everything that is left.
pub open spec fn parse_picture_chunk(s: Seq<u8>) -> wire::Parsed<MessageModel> {
    match wire::parse_u32(s) {
        Err(e) => Err(e),
        Ok((handle, s)) => match wire::parse_u32(s) {
            Err(e) => Err(e),
            Ok((offset, s)) => if chunk_lands(offset, s.len() as int) {
                Ok(
                    (
                        MessageModel::PictureChunk {
                            handle: PictureHandle(handle),
                            offset,
                            bytes: s,
                        },
                        Seq::empty(),
                    ),
                )
            } else {
                Err(ProtocolError::FrameTooLarge)
            },
        },
    }
}

/// A font is everything that is left.
pub open spec fn parse_put_font(s: Seq<u8>) -> wire::Parsed<MessageModel> {
    match wire::parse_u32(s) {
        Err(e) => Err(e),
        Ok((handle, s)) => match wire::parse_text(s) {
            Err(e) => Err(e),
            Ok((name, s)) => if s.len() == 0 || s.len() > MAX_FONT_BYTES {
                Err(ProtocolError::FrameTooLarge)
            } else {
                Ok(
                    (
                        MessageModel::PutFont { handle: FontHandle(handle), name, bytes: s },
                        Seq::empty(),
                    ),
                )
            },
        },
    }
}

/// Whether a kind is followed by one number and nothing else.
pub open spec fn is_numbered(kind: u8) -> bool {
    kind == 4 || kind == 10 || kind == 19 || kind == 22 || kind == 25
}

/// The message a kind and a number make.
pub open spec fn numbered_message(kind: u8, number: u32) -> MessageModel {
    if kind == 4 {
        MessageModel::Action { action: ActionId(number) }
    } else if kind == 10 {
        MessageModel::Cancel { task: TaskId(number) }
    } else if kind == 19 {
        MessageModel::DropPicture { handle: PictureHandle(number) }
    } else if kind == 22 {
        MessageModel::CommitPicture { handle: PictureHandle(number) }
    } else {
        MessageModel::DropFont { handle: FontHandle(number) }
    }
}

/// What reading makes of a payload of the given kind.
#[verifier::opaque]
pub open spec fn parse_message(kind: u8, s: Seq<u8>) -> wire::Parsed<MessageModel> {
    if kind == 1 || kind == 12 {
        parse_named(s, kind == 12)
    } else if kind == 2 {
        parse_welcome(s)
    } else if kind == 3 {
        match screen::parse_screen(s, 0, 0) {
            Err(e) => Err(e),
            Ok(((screen, nodes), s)) => Ok((MessageModel::SetScreen(screen), s)),
        }
    } else if is_numbered(kind) {
        match wire::parse_u32(s) {
            Err(e) => Err(e),
            Ok((number, s)) => Ok((numbered_message(kind, number), s)),
        }
    } else if kind == 5 {
        parse_log(s)
    } else if kind == 6 {
        Ok((MessageModel::Exit, s))
    } else if kind == 7 {
        match device_request::parse_device_request(s) {
            Err(e) => Err(e),
            Ok((request, s)) => Ok((MessageModel::DeviceRequest(request), s)),
        }
    } else if kind == 8 {
        match device_result::parse_device_result(s) {
            Err(e) => Err(e),
            Ok((result, s)) => Ok((MessageModel::DeviceResult(result), s)),
        }
    } else if kind == 9 {
        parse_spawn(s)
    } else if kind == 11 {
        parse_task_outcome(s)
    } else if kind == 13 {
        match store_codec::parse_request(s) {
            Err(e) => Err(e),
            Ok((request, s)) => Ok((MessageModel::StoreRequest(request), s)),
        }
    } else if kind == 14 {
        match store_codec::parse_result(s) {
            Err(e) => Err(e),
            Ok((result, s)) => Ok((MessageModel::StoreResult(result), s)),
        }
    } else if kind == 15 {
        match parse_lifecycle(s) {
            Err(e) => Err(e),
            Ok((state, s)) => Ok((MessageModel::Lifecycle(state), s)),
        }
    } else if kind == 16 {
        match shell_codec::parse_shell_request(s) {
            Err(e) => Err(e),
            Ok((request, s)) => Ok((MessageModel::ShellRequest(request), s)),
        }
    } else if kind == 17 {
        match shell_codec::parse_shell_event(s) {
            Err(e) => Err(e),
            Ok((event, s)) => Ok((MessageModel::ShellEvent(event), s)),
        }
    } else if kind == 18 {
        parse_put_picture(s)
    } else if kind == 20 {
        parse_begin_picture(s)
    } else if kind == 21 {
        parse_picture_chunk(s)
    } else if kind == 23 {
        match wire::parse_flag(s, "cover magnet present") {
            Err(e) => Err(e),
            Ok((magnet_present, s)) => Ok((MessageModel::CoverChanged { magnet_present }, s)),
        }
    } else if kind == 24 {
        parse_put_font(s)
    } else if kind == 26 {
        parse_text_hold(s)
    } else if kind == 27 {
        match wire::parse_flag(s, "page turn direction") {
            Err(e) => Err(e),
            Ok((forward, s)) => Ok((MessageModel::PageTurn { forward }, s)),
        }
    } else {
        Err(ProtocolError::UnknownMessageType(kind))
    }
}

// ---------------------------------------------------------------------------
// Laws.

/// No two messages of different shapes share a kind.
pub proof fn law_kinds_differ(a: MessageModel, b: MessageModel)
    requires
        message_kind(a) == message_kind(b),
    ensures
        a is Hello <==> b is Hello,
        a is Welcome <==> b is Welcome,
        a is SetScreen <==> b is SetScreen,
        a is Action <==> b is Action,
        a is TextHold <==> b is TextHold,
        a is Log <==> b is Log,
        a is Exit <==> b is Exit,
        a is Launch <==> b is Launch,
        a is DeviceRequest <==> b is DeviceRequest,
        a is DeviceResult <==> b is DeviceResult,
        a is Spawn <==> b is Spawn,
        a is Cancel <==> b is Cancel,
        a is TaskOutcome <==> b is TaskOutcome,
        a is StoreRequest <==> b is StoreRequest,
        a is Lifecycle <==> b is Lifecycle,
        a is StoreResult <==> b is StoreResult,
        a is ShellRequest <==> b is ShellRequest,
        a is ShellEvent <==> b is ShellEvent,
        a is CoverChanged <==> b is CoverChanged,
        a is PageTurn <==> b is PageTurn,
        a is PutPicture <==> b is PutPicture,
        a is BeginPicture <==> b is BeginPicture,
        a is PictureChunk <==> b is PictureChunk,
        a is CommitPicture <==> b is CommitPicture,
        a is DropPicture <==> b is DropPicture,
        a is PutFont <==> b is PutFont,
        a is DropFont <==> b is DropFont,
{
}

/// A payload is exactly as long as it was counted, and no longer than a frame
/// may be.
pub proof fn lemma_message_counted(message: MessageModel)
    requires
        message_size(message) is Ok,
    ensures
        message_bytes(message).len() == message_size(message)->Ok_0,
        message_size(message)->Ok_0 <= MAX_FRAME_LEN,
{
    broadcast use wire::group_lengths;

    reveal(message_size);
    reveal(message_bytes);
    match message {
        MessageModel::SetScreen(screen) => {
            screen::lemma_screen_counted(screen, 0, 0);
            screen::lemma_screen_bounded(screen, 0, 0);
        },
        MessageModel::DeviceRequest(request) => {
            device_request::lemma_device_request_short(request);
        },
        MessageModel::DeviceResult(result) => device_result::lemma_device_result_short(result),
        MessageModel::Spawn { task, work } => {
            task_codec::lemma_task_counted(work);
            task_codec::lemma_task_bounded(work);
        },
        MessageModel::TaskOutcome { task, outcome } => {
            task_codec::lemma_outcome_counted(outcome);
        },
        MessageModel::StoreRequest(request) => {
            store_codec::lemma_request_counted(request);
            store_codec::lemma_request_bounded(request);
        },
        MessageModel::StoreResult(result) => {
            store_codec::lemma_result_counted(result);
            store_codec::lemma_result_bounded(result);
        },
        MessageModel::ShellRequest(request) => shell_codec::lemma_shell_request_counted(request),
        MessageModel::ShellEvent(event) => shell_codec::lemma_shell_event_counted(event),
        _ => {},
    }
}

proof fn lemma_picture_read_back(message: MessageModel)
    requires
        message is PutPicture || message is PictureChunk || message is PutFont,
        message_size(message) is Ok,
    ensures
        parse_message(message_kind(message), message_bytes(message)) == Ok::<_, ProtocolError>(
            (message, Seq::<u8>::empty()),
        ),
{
    reveal(message_size);
    reveal(message_bytes);
    reveal(parse_message);
    match message {
        MessageModel::PutPicture { handle, width, height, pixels } => {
            lemma_picture_head_read_back(handle, width, height, pixels.format(), pixels.bytes());
        },
        MessageModel::PictureChunk { handle, offset, bytes } => {
            broadcast use wire::group_reading;

        },
        MessageModel::PutFont { handle, name, bytes } => {
            broadcast use wire::group_reading;

        },
        _ => {},
    }
}

proof fn lemma_record_read_back(message: MessageModel)
    requires
        message is SetScreen || message is DeviceRequest || message is DeviceResult
            || message is Spawn || message is TaskOutcome || message is StoreRequest
            || message is StoreResult || message is ShellRequest || message is ShellEvent,
        message_size(message) is Ok,
        message_faithful(message),
    ensures
        parse_message(message_kind(message), message_bytes(message)) == Ok::<_, ProtocolError>(
            (message, Seq::<u8>::empty()),
        ),
{
    reveal(message_size);
    reveal(message_bytes);
    reveal(parse_message);
    let rest = Seq::<u8>::empty();
    let payload = message_bytes(message);
    assert(payload + rest =~= payload);
    match message {
        MessageModel::SetScreen(screen) => screen::lemma_screen_read_back(screen, rest, 0, 0),
        MessageModel::DeviceRequest(request) => {
            device_request::lemma_device_request_read_back(request, rest);
        },
        MessageModel::DeviceResult(result) => {
            device_result::lemma_device_result_read_back(result, rest);
        },
        MessageModel::Spawn { task, work } => {
            let inside = task_codec::task_bytes(work);
            wire::lemma_parse_u32(task.0, inside);
            assert(inside + rest =~= inside);
            task_codec::lemma_task_read_back(work, rest);
        },
        MessageModel::TaskOutcome { task, outcome } => {
            let inside = task_codec::outcome_bytes(outcome);
            wire::lemma_parse_u32(task.0, inside);
            assert(inside + rest =~= inside);
            task_codec::lemma_outcome_read_back(outcome, rest);
        },
        MessageModel::StoreRequest(request) => store_codec::lemma_request_read_back(request, rest),
        MessageModel::StoreResult(result) => store_codec::lemma_result_read_back(result, rest),
        MessageModel::ShellRequest(request) => {
            shell_codec::lemma_shell_request_read_back(request, rest);
        },
        MessageModel::ShellEvent(event) => shell_codec::lemma_shell_event_read_back(event, rest),
        _ => {},
    }
}

/// A message that loses nothing on the wire is read back as it was, with
/// nothing left over.
pub proof fn lemma_message_read_back(message: MessageModel)
    requires
        message_size(message) is Ok,
        message_faithful(message),
    ensures
        parse_message(message_kind(message), message_bytes(message)) == Ok::<_, ProtocolError>(
            (message, Seq::<u8>::empty()),
        ),
{
    match message {
        MessageModel::PutPicture { .. } => lemma_picture_read_back(message),
        MessageModel::PictureChunk { .. } => lemma_picture_read_back(message),
        MessageModel::PutFont { .. } => lemma_picture_read_back(message),
        MessageModel::SetScreen(_) => lemma_record_read_back(message),
        MessageModel::DeviceRequest(_) => lemma_record_read_back(message),
        MessageModel::DeviceResult(_) => lemma_record_read_back(message),
        MessageModel::Spawn { .. } => lemma_record_read_back(message),
        MessageModel::TaskOutcome { .. } => lemma_record_read_back(message),
        MessageModel::StoreRequest(_) => lemma_record_read_back(message),
        MessageModel::StoreResult(_) => lemma_record_read_back(message),
        MessageModel::ShellRequest(_) => lemma_record_read_back(message),
        MessageModel::ShellEvent(_) => lemma_record_read_back(message),
        _ => {
            broadcast use wire::group_reading;

            reveal(message_size);
            reveal(message_bytes);
            reveal(parse_message);
            let rest = Seq::<u8>::empty();
            let payload = message_bytes(message);
            assert(payload + rest =~= payload);
            if let MessageModel::BeginPicture { handle, width, height, format } = message {
                lemma_picture_head_read_back(handle, width, height, format, rest);
            }
        },
    }
}

/// A request for work that has a length can be sent.
pub proof fn lemma_spawn_counted(task: TaskId, work: TaskModel)
    requires
        task_codec::task_size(work) is Ok,
    ensures
        message_size(MessageModel::Spawn { task, work }) is Ok,
{
    reveal(message_size);
}

/// A request for work arrives as its work does.
pub proof fn lemma_spawn_arrives(task: TaskId, work: TaskModel)
    requires
        message_size(MessageModel::Spawn { task, work }) is Ok,
    ensures
        parse_message(9, message_bytes(MessageModel::Spawn { task, work }))
            == if task_codec::address_fits(work) {
            Ok::<_, ProtocolError>(
                (
                    MessageModel::Spawn { task, work: task_codec::clipped(work) },
                    Seq::<u8>::empty(),
                ),
            )
        } else {
            Err(ProtocolError::StringTooLarge)
        },
{
    reveal(message_size);
    reveal(message_bytes);
    reveal(parse_message);
    let rest = Seq::<u8>::empty();
    let inside = task_codec::task_bytes(work);
    wire::lemma_parse_u32(task.0, inside);
    assert(inside + rest =~= inside);
    task_codec::lemma_task_arrives(work, rest);
}

// ---------------------------------------------------------------------------
// Counting.

fn inline_picture_len(width: u32, height: u32, pixels: &PicturePixels) -> (result: Result<
    usize,
    ProtocolError,
>)
    ensures
        wire::counts(result, inline_picture_size(width, height, pixels@)),
{
    let expected: usize = match pixels.format().byte_len(width, height) {
        None => return Err(ProtocolError::FrameTooLarge),
        Some(expected) => expected,
    };
    if expected != pixels.byte_count() {
        return Err(ProtocolError::InvalidValue("picture size"));
    }
    if expected > MAX_INLINE_PICTURE_BYTES {
        return Err(ProtocolError::FrameTooLarge);
    }
    Ok(13 + expected)
}

fn can_begin_picture(width: u32, height: u32, format: PictureFormat) -> (can: bool)
    ensures
        can == begins_picture(width, height, format),
{
    match format.byte_len(width, height) {
        None => false,
        Some(expected) => expected != 0 && expected <= MAX_PICTURE_BYTES,
    }
}

fn can_land(offset: u32, length: usize) -> (can: bool)
    ensures
        can == chunk_lands(offset, length as int),
{
    length != 0 && length <= MAX_PICTURE_CHUNK_BYTES && offset as usize <= MAX_PICTURE_BYTES
        && length <= MAX_PICTURE_BYTES - offset as usize
}

/// The kind of a message and the length of its payload, or why it cannot be
/// sent.
pub fn encoded_message_layout(message: &Message) -> (result: Result<(u8, usize), ProtocolError>)
    ensures
        match (result, message_size(message@)) {
            (Ok((kind, length)), Ok(size)) => kind == message_kind(message@) && length == size
                && length <= MAX_FRAME_LEN,
            (Err(error), Err(refusal)) => error == refusal,
            _ => false,
        },
{
    reveal(message_size);
    match message {
        Message::Hello { name } => Ok((1, add_text_len(0, name.as_str())?)),
        Message::Welcome { .. } => Ok((2, 8)),
        Message::SetScreen(screen) => {
            let mut count: usize = 0;
            Ok((3, screen_len(screen, 0, &mut count)?))
        },
        Message::Action { .. } => Ok((4, 4)),
        Message::TextHold { action: _, context: _, start, end } => {
            if *start >= *end {
                return Err(ProtocolError::InvalidValue("text hold range"));
            }
            Ok((26, 20))
        },
        Message::Log { level: _, message } => Ok((5, add_text_len(1, message.as_str())?)),
        Message::Exit => Ok((6, 0)),
        Message::Launch { name } => Ok((12, add_text_len(0, name.as_str())?)),
        Message::DeviceRequest(request) => Ok((7, device_request_len(request)?)),
        Message::DeviceResult(answer) => Ok((8, device_result_len(answer)?)),
        Message::Spawn { task: _, work } => Ok((9, task_len(work)?)),
        Message::Cancel { .. } => Ok((10, 4)),
        Message::TaskOutcome { task: _, outcome } => Ok((11, outcome_len(outcome)?)),
        Message::StoreRequest(request) => Ok((13, request_len(request)?)),
        Message::StoreResult(answer) => Ok((14, result_len(answer)?)),
        Message::Lifecycle(_) => Ok((15, 1)),
        Message::ShellRequest(request) => Ok((16, shell_request_len(request)?)),
        Message::ShellEvent(event) => Ok((17, shell_event_len(event)?)),
        Message::PutPicture { handle: _, width, height, pixels } => Ok(
            (18, inline_picture_len(*width, *height, pixels)?),
        ),
        Message::DropPicture { .. } => Ok((19, 4)),
        Message::BeginPicture { handle: _, width, height, format } => {
            if !can_begin_picture(*width, *height, *format) {
                return Err(ProtocolError::FrameTooLarge);
            }
            Ok((20, 13))
        },
        Message::PictureChunk { handle: _, offset, bytes } => {
            if !can_land(*offset, bytes.len()) {
                return Err(ProtocolError::FrameTooLarge);
            }
            Ok((21, 8 + bytes.len()))
        },
        Message::CommitPicture { .. } => Ok((22, 4)),
        Message::CoverChanged { .. } => Ok((23, 1)),
        Message::PageTurn { .. } => Ok((27, 1)),
        Message::PutFont { handle: _, name, bytes } => {
            if bytes.len() == 0 || bytes.len() > MAX_FONT_BYTES {
                return Err(ProtocolError::FrameTooLarge);
            }
            let length: usize = add_text_len(4, name.as_str())?;
            Ok((24, add_encoded_len(length, bytes.len())?))
        },
        Message::DropFont { .. } => Ok((25, 4)),
    }
}

// ---------------------------------------------------------------------------
// Writing.

/// Writes a payload that is a record of its own.
fn write_record(output: &mut Vec<u8>, message: &Message) -> (result: Result<(), ProtocolError>)
    requires
        message_size(message@) is Ok,
        message@ is SetScreen || message@ is DeviceRequest || message@ is DeviceResult
            || message@ is Spawn || message@ is TaskOutcome || message@ is StoreRequest
            || message@ is StoreResult || message@ is ShellRequest || message@ is ShellEvent,
    ensures
        leaf_codec::writes(
            result,
            old(output)@,
            final(output)@,
            message_refusal(message@),
            message_bytes(message@),
        ),
{
    broadcast use wire::group_writing;

    reveal(message_size);
    reveal(message_bytes);
    match message {
        Message::SetScreen(screen) => {
            proof {
                screen::lemma_screen_counted(screen@, 0, 0);
            }
            return write_screen(output, screen);
        },
        Message::DeviceRequest(request) => return encode_device_request(output, request),
        Message::DeviceResult(answer) => return encode_device_result(output, answer),
        Message::Spawn { task, work } => {
            proof {
                task_codec::lemma_task_counted(work@);
            }
            push_u32(output, task.0);
            write_task(output, work);
        },
        Message::TaskOutcome { task, outcome } => {
            push_u32(output, task.0);
            write_outcome(output, outcome);
        },
        Message::StoreRequest(request) => {
            proof {
                store_codec::lemma_request_counted(request@);
            }
            write_request(output, request);
        },
        Message::StoreResult(answer) => {
            proof {
                store_codec::lemma_result_counted(answer@);
            }
            write_result(output, answer);
        },
        Message::ShellRequest(request) => write_shell_request(output, request),
        Message::ShellEvent(event) => write_shell_event(output, event),
        _ => {},
    }
    Ok(())
}

/// Writes a payload whose length is known.
pub fn write_message(output: &mut Vec<u8>, message: &Message) -> (result: Result<
    (),
    ProtocolError,
>)
    requires
        message_size(message@) is Ok,
    ensures
        leaf_codec::writes(
            result,
            old(output)@,
            final(output)@,
            message_refusal(message@),
            message_bytes(message@),
        ),
{
    broadcast use {wire::group_writing, wire::lemma_concat_nothing};

    reveal(message_size);
    reveal(message_bytes);
    match message {
        Message::Hello { name } => push_string(output, name.as_str())?,
        Message::Welcome { width, height, pixels_per_inch, text_scale, picture_format } => {
            push_u16(output, *width);
            push_u16(output, *height);
            push_u16(output, *pixels_per_inch);
            push_u8(
                output,
                match text_scale {
                    TextScale::Default => 0,
                    TextScale::Large => 1,
                    TextScale::ExtraLarge => 2,
                },
            );
            push_u8(output, picture_format_tag(*picture_format));
        },
        Message::Action { action } => push_u32(output, action.0),
        Message::TextHold { action, context, start, end } => {
            push_u32(output, action.0);
            push_u64(output, *context);
            push_u32(output, *start);
            push_u32(output, *end);
        },
        Message::Log { level, message } => {
            push_u8(output, level.to_tag());
            push_string(output, message.as_str())?;
        },
        Message::Exit => {},
        Message::Launch { name } => push_string(output, name.as_str())?,
        Message::Cancel { task } => push_u32(output, task.0),
        Message::Lifecycle(state) => push_u8(
            output,
            match state {
                Lifecycle::Foreground => 0,
                Lifecycle::Background => 1,
            },
        ),
        Message::CoverChanged { magnet_present } => push_flag(output, *magnet_present),
        Message::PageTurn { forward } => push_flag(output, *forward),
        Message::PutPicture { handle, width, height, pixels } => {
            push_picture_head(output, *handle, *width, *height, pixels.format());
            push_bytes(output, pixels.bytes().as_slice());
        },
        Message::BeginPicture { handle, width, height, format } => {
            push_picture_head(output, *handle, *width, *height, *format);
        },
        Message::PictureChunk { handle, offset, bytes } => {
            push_u32(output, handle.0);
            push_u32(output, *offset);
            push_bytes(output, bytes.as_slice());
        },
        Message::CommitPicture { handle } => push_u32(output, handle.0),
        Message::DropPicture { handle } => push_u32(output, handle.0),
        Message::PutFont { handle, name, bytes } => {
            push_u32(output, handle.0);
            push_string(output, name.as_str())?;
            push_bytes(output, bytes.as_slice());
        },
        Message::DropFont { handle } => push_u32(output, handle.0),
        _ => return write_record(output, message),
    }
    Ok(())
}

// ---------------------------------------------------------------------------
// Reading.

fn read_put_picture(reader: &mut Reader<'_>) -> (result: Result<Message, ProtocolError>)
    ensures
        wire::reads(result, final(reader)@, parse_put_picture(old(reader)@)),
{
    let (handle, width, height, format) = read_picture_head(reader)?;
    let expected: usize = match format.byte_len(width, height) {
        None => return Err(ProtocolError::FrameTooLarge),
        Some(expected) => expected,
    };
    if expected > MAX_INLINE_PICTURE_BYTES {
        return Err(ProtocolError::FrameTooLarge);
    }
    let bytes = take_exact_picture_body(reader, expected)?;
    Ok(Message::PutPicture { handle, width, height, pixels: PicturePixels::of(format, bytes) })
}

/// Exactly so many bytes, when they are all that is left.
pub open spec fn parse_exactly(s: Seq<u8>, expected: int) -> wire::Parsed<Seq<u8>> {
    if s.len() < expected {
        Err(ProtocolError::Truncated)
    } else if s.len() > expected {
        Err(ProtocolError::LengthMismatch)
    } else {
        Ok((s, Seq::empty()))
    }
}

/// Reads the bytes of a picture, which must be all that is left.
pub fn take_exact_picture_body(reader: &mut Reader<'_>, expected: usize) -> (result: Result<
    Vec<u8>,
    ProtocolError,
>)
    ensures
        wire::reads(result, final(reader)@, parse_exactly(old(reader)@, expected as int)),
{
    let remaining: usize = reader.remaining();
    if remaining < expected {
        return Err(ProtocolError::Truncated);
    }
    if remaining > expected {
        return Err(ProtocolError::LengthMismatch);
    }
    Ok(read_everything(reader))
}

/// Reads everything that is left.
fn read_everything(reader: &mut Reader<'_>) -> (bytes: Vec<u8>)
    ensures
        bytes@ == old(reader)@,
        final(reader)@ == Seq::<u8>::empty(),
{
    proof {
        let rest = Seq::<u8>::empty();
        assert(reader@ + rest =~= reader@);
        wire::lemma_parse_bytes(reader@, rest);
    }
    match reader.vec(reader.remaining()) {
        Ok(bytes) => bytes,
        Err(_) => Vec::new(),
    }
}

fn read_picture_chunk(reader: &mut Reader<'_>) -> (result: Result<Message, ProtocolError>)
    ensures
        wire::reads(result, final(reader)@, parse_picture_chunk(old(reader)@)),
{
    let handle = PictureHandle(reader.u32()?);
    let offset: u32 = reader.u32()?;
    if !can_land(offset, reader.remaining()) {
        return Err(ProtocolError::FrameTooLarge);
    }
    let bytes = read_everything(reader);
    Ok(Message::PictureChunk { handle, offset, bytes })
}

fn read_put_font(reader: &mut Reader<'_>) -> (result: Result<Message, ProtocolError>)
    ensures
        wire::reads(result, final(reader)@, parse_put_font(old(reader)@)),
{
    let handle = FontHandle(reader.u32()?);
    let name = reader.string()?;
    let length: usize = reader.remaining();
    if length == 0 || length > MAX_FONT_BYTES {
        return Err(ProtocolError::FrameTooLarge);
    }
    let bytes = read_everything(reader);
    Ok(Message::PutFont { handle, name, bytes })
}

fn read_text_hold(reader: &mut Reader<'_>) -> (result: Result<Message, ProtocolError>)
    ensures
        wire::reads(result, final(reader)@, parse_text_hold(old(reader)@)),
{
    let action = ActionId(reader.u32()?);
    let context: u64 = reader.u64()?;
    let start: u32 = reader.u32()?;
    let end: u32 = reader.u32()?;
    if start >= end {
        return Err(ProtocolError::InvalidValue("text hold range"));
    }
    Ok(Message::TextHold { action, context, start, end })
}

fn read_welcome(reader: &mut Reader<'_>) -> (result: Result<Message, ProtocolError>)
    ensures
        wire::reads(result, final(reader)@, parse_welcome(old(reader)@)),
{
    let width: u16 = reader.u16()?;
    let height: u16 = reader.u16()?;
    let pixels_per_inch: u16 = reader.u16()?;
    let text_scale = take_text_scale(reader)?;
    let picture_format = take_picture_format(reader)?;
    Ok(Message::Welcome { width, height, pixels_per_inch, text_scale, picture_format })
}

/// Reads a payload of the given kind.
pub fn read_message(kind: u8, reader: &mut Reader<'_>) -> (result: Result<Message, ProtocolError>)
    ensures
        wire::reads(result, final(reader)@, parse_message(kind, old(reader)@)),
{
    reveal(parse_message);
    match kind {
        1 => {
            let name = reader.string()?;
            Ok(Message::Hello { name })
        },
        2 => read_welcome(reader),
        3 => {
            let mut count: usize = 0;
            let screen = read_screen(reader, 0, &mut count)?;
            Ok(Message::SetScreen(screen))
        },
        4 => {
            let action = ActionId(reader.u32()?);
            Ok(Message::Action { action })
        },
        5 => {
            let level = LogLevel::from_tag(reader.u8()?)?;
            let message = reader.string()?;
            Ok(Message::Log { level, message })
        },
        6 => Ok(Message::Exit),
        7 => {
            let request = decode_device_request(reader)?;
            Ok(Message::DeviceRequest(request))
        },
        8 => {
            let answer = decode_device_result(reader)?;
            Ok(Message::DeviceResult(answer))
        },
        9 => {
            let task = TaskId(reader.u32()?);
            let work = read_task(reader)?;
            Ok(Message::Spawn { task, work })
        },
        10 => {
            let task = TaskId(reader.u32()?);
            Ok(Message::Cancel { task })
        },
        11 => {
            let task = TaskId(reader.u32()?);
            let outcome = read_outcome(reader)?;
            Ok(Message::TaskOutcome { task, outcome })
        },
        12 => {
            let name = reader.string()?;
            Ok(Message::Launch { name })
        },
        13 => {
            let request = read_request(reader)?;
            Ok(Message::StoreRequest(request))
        },
        14 => {
            let answer = read_result(reader)?;
            Ok(Message::StoreResult(answer))
        },
        15 => {
            let tag: u8 = reader.u8()?;
            match tag {
                0 => Ok(Message::Lifecycle(Lifecycle::Foreground)),
                1 => Ok(Message::Lifecycle(Lifecycle::Background)),
                _ => Err(ProtocolError::InvalidValue("lifecycle state")),
            }
        },
        16 => {
            let request = read_shell_request(reader)?;
            Ok(Message::ShellRequest(request))
        },
        17 => {
            let event = read_shell_event(reader)?;
            Ok(Message::ShellEvent(event))
        },
        18 => read_put_picture(reader),
        19 => {
            let handle = PictureHandle(reader.u32()?);
            Ok(Message::DropPicture { handle })
        },
        20 => {
            let (handle, width, height, format) = read_picture_head(reader)?;
            if !can_begin_picture(width, height, format) {
                return Err(ProtocolError::FrameTooLarge);
            }
            Ok(Message::BeginPicture { handle, width, height, format })
        },
        21 => read_picture_chunk(reader),
        22 => {
            let handle = PictureHandle(reader.u32()?);
            Ok(Message::CommitPicture { handle })
        },
        23 => {
            let magnet_present = reader.flag("cover magnet present")?;
            Ok(Message::CoverChanged { magnet_present })
        },
        24 => read_put_font(reader),
        25 => {
            let handle = FontHandle(reader.u32()?);
            Ok(Message::DropFont { handle })
        },
        26 => read_text_hold(reader),
        27 => {
            let forward = reader.flag("page turn direction")?;
            Ok(Message::PageTurn { forward })
        },
        _ => Err(ProtocolError::UnknownMessageType(kind)),
    }
}

} // verus!
