//! Whole frames: a header, then the payload of one message.

use vstd::prelude::*;

use crate::error::ProtocolError;
use crate::limits::{HEADER_LEN, MAGIC, MAX_FRAME_LEN, VERSION};
use crate::message::{Frame, FrameModel, MessageModel};
use crate::message_codec;
use crate::message_codec::{encoded_message_layout, read_message, write_message};
use crate::task;
use crate::task::{TaskId, TaskModel};
use crate::task_codec;
use crate::wire;
use crate::wire::{push_bytes, push_u32, push_u8, Reader};

verus! {

/// The four bytes every frame starts with.
pub open spec fn magic() -> Seq<u8> {
    MAGIC@
}

/// What stands in front of a payload.
pub open spec fn header_bytes(kind: u8, length: int, request_id: u32) -> Seq<u8> {
    magic() + seq![VERSION] + seq![kind] + wire::be32(length as u32) + wire::be32(request_id)
}

/// The bytes of a frame, or why it cannot be sent.
pub open spec fn encoded(frame: FrameModel) -> Result<Seq<u8>, ProtocolError> {
    match message_codec::message_size(frame.message) {
        Err(e) => Err(e),
        Ok(_) => match message_codec::message_refusal(frame.message) {
            Some(e) => Err(e),
            None => {
                let payload = message_codec::message_bytes(frame.message);
                Ok(
                    header_bytes(
                        message_codec::message_kind(frame.message),
                        payload.len() as int,
                        frame.request_id,
                    ) + payload,
                )
            },
        },
    }
}

/// The length of the payload a header announces, or why there is none.
pub open spec fn announced(header: Seq<u8>) -> Result<int, ProtocolError> {
    if header.take(4) != magic() {
        Err(ProtocolError::BadMagic)
    } else if header[4] != VERSION {
        Err(ProtocolError::UnsupportedVersion(header[4]))
    } else {
        let length = wire::parse_u32(header.skip(6))->Ok_0.0;
        if length > MAX_FRAME_LEN {
            Err(ProtocolError::FrameTooLarge)
        } else {
            Ok(length as int)
        }
    }
}

/// The frame that bytes are, or why they are none.
pub open spec fn decoded(bytes: Seq<u8>) -> Result<FrameModel, ProtocolError> {
    if bytes.len() < HEADER_LEN {
        Err(ProtocolError::Truncated)
    } else {
        match announced(bytes) {
            Err(e) => Err(e),
            Ok(length) => if bytes.len() != HEADER_LEN + length {
                Err(ProtocolError::LengthMismatch)
            } else {
                let request_id = wire::parse_u32(bytes.skip(10))->Ok_0.0;
                match message_codec::parse_message(bytes[5], bytes.skip(HEADER_LEN as int)) {
                    Err(e) => Err(e),
                    Ok((message, rest)) => if rest.len() > 0 {
                        Err(ProtocolError::LengthMismatch)
                    } else {
                        Ok(FrameModel { request_id, message })
                    },
                }
            },
        }
    }
}

/// A frame that can be sent is bounded, whatever it says.
pub proof fn law_frames_are_bounded(frame: FrameModel)
    requires
        encoded(frame) is Ok,
    ensures
        HEADER_LEN <= encoded(frame)->Ok_0.len() <= HEADER_LEN + MAX_FRAME_LEN,
{
    broadcast use wire::group_lengths;

    message_codec::lemma_message_counted(frame.message);
}

/// A frame is exactly as long as it was predicted to be before a byte of it
/// was written.
pub proof fn law_lengths_are_predicted(frame: FrameModel)
    requires
        encoded(frame) is Ok,
    ensures
        message_codec::message_size(frame.message) == Ok::<_, ProtocolError>(
            encoded(frame)->Ok_0.len() - HEADER_LEN,
        ),
{
    broadcast use wire::group_lengths;

    message_codec::lemma_message_counted(frame.message);
}

proof fn lemma_header(kind: u8, length: int, request_id: u32, payload: Seq<u8>)
    requires
        0 <= length <= MAX_FRAME_LEN,
    ensures
        ({
            let bytes = header_bytes(kind, length, request_id) + payload;
            &&& bytes.len() == HEADER_LEN + payload.len()
            &&& bytes.take(4) == magic()
            &&& bytes[4] == VERSION
            &&& bytes[5] == kind
            &&& wire::parse_u32(bytes.skip(6))->Ok_0.0 == length
            &&& wire::parse_u32(bytes.skip(10))->Ok_0.0 == request_id
            &&& bytes.skip(HEADER_LEN as int) == payload
        }),
{
    broadcast use wire::group_lengths;

    let bytes = header_bytes(kind, length, request_id) + payload;
    let sized = wire::be32(length as u32);
    let numbered = wire::be32(request_id);
    assert(bytes.take(4) =~= magic());
    assert(bytes.skip(6) =~= sized + (numbered + payload));
    assert(bytes.skip(10) =~= numbered + payload);
    assert(bytes.skip(HEADER_LEN as int) =~= payload);
    wire::lemma_parse_u32(length as u32, numbered + payload);
    wire::lemma_parse_u32(request_id, payload);
}

/// What one side sends is what the other side reads: a frame that can be sent,
/// and that says nothing the wire would drop, clip or refuse, is decoded to
/// itself.
pub proof fn law_frames_read_back(frame: FrameModel)
    requires
        encoded(frame) is Ok,
        message_codec::message_faithful(frame.message),
    ensures
        decoded(encoded(frame)->Ok_0) == Ok::<_, ProtocolError>(frame),
{
    let payload = message_codec::message_bytes(frame.message);
    let kind = message_codec::message_kind(frame.message);
    message_codec::lemma_message_counted(frame.message);
    lemma_header(kind, payload.len() as int, frame.request_id, payload);
    message_codec::lemma_message_read_back(frame.message);
}

/// The frame that asks the runtime for work.
pub open spec fn spawning(request_id: u32, task: TaskId, work: TaskModel) -> FrameModel {
    FrameModel { request_id, message: MessageModel::Spawn { task, work } }
}

/// Work that is sent comes back asking for no more than one answer carries,
/// and otherwise as it was, unless the address it asks is longer than one may
/// be: that is refused when it is read.
pub proof fn law_work_comes_back_clipped(request_id: u32, task: TaskId, work: TaskModel)
    requires
        encoded(spawning(request_id, task, work)) is Ok,
    ensures
        decoded(encoded(spawning(request_id, task, work))->Ok_0)
            == if task_codec::address_fits(work) {
            Ok::<_, ProtocolError>(spawning(request_id, task, task_codec::clipped(work)))
        } else {
            Err(ProtocolError::StringTooLarge)
        },
{
    let frame = spawning(request_id, task, work);
    let payload = message_codec::message_bytes(frame.message);
    message_codec::lemma_message_counted(frame.message);
    lemma_header(
        message_codec::message_kind(frame.message),
        payload.len() as int,
        request_id,
        payload,
    );
    message_codec::lemma_spawn_arrives(task, work);
}

/// Work that an application may send fits on the wire: it can be sent, and it
/// is not refused when it is read.
pub proof fn law_sendable_work_arrives(request_id: u32, task: TaskId, work: TaskModel)
    requires
        task::sendable(work),
    ensures
        encoded(spawning(request_id, task, work)) is Ok,
        decoded(encoded(spawning(request_id, task, work))->Ok_0) == Ok::<_, ProtocolError>(
            spawning(request_id, task, task_codec::clipped(work)),
        ),
{
    task_codec::lemma_sendable_is_counted(work);
    message_codec::lemma_spawn_counted(task, work);
    law_work_comes_back_clipped(request_id, task, work);
}

/// Two frames that lose nothing on the wire and are the same bytes are the
/// same frame.
pub proof fn law_frames_differ(a: FrameModel, b: FrameModel)
    requires
        encoded(a) is Ok,
        encoded(a) == encoded(b),
        message_codec::message_faithful(a.message),
        message_codec::message_faithful(b.message),
    ensures
        a == b,
{
    law_frames_read_back(a);
    law_frames_read_back(b);
}

/// The length the header of a frame announces is the length of its payload.
pub proof fn law_headers_announce_payloads(frame: FrameModel)
    requires
        encoded(frame) is Ok,
    ensures
        announced(encoded(frame)->Ok_0) == Ok::<_, ProtocolError>(
            encoded(frame)->Ok_0.len() - HEADER_LEN,
        ),
{
    let payload = message_codec::message_bytes(frame.message);
    message_codec::lemma_message_counted(frame.message);
    lemma_header(
        message_codec::message_kind(frame.message),
        payload.len() as int,
        frame.request_id,
        payload,
    );
}

/// A frame is read only from exactly its own bytes: one byte fewer or more
/// than its header announces is refused.
pub proof fn law_lengths_are_exact(bytes: Seq<u8>)
    requires
        decoded(bytes) is Ok,
    ensures
        announced(bytes) == Ok::<_, ProtocolError>(bytes.len() - HEADER_LEN),
{
}

fn is_magic(bytes: &[u8]) -> (is: bool)
    requires
        bytes@.len() >= 4,
    ensures
        is == (bytes@.take(4) == magic()),
{
    let is = bytes[0] == MAGIC[0] && bytes[1] == MAGIC[1] && bytes[2] == MAGIC[2] && bytes[3]
        == MAGIC[3];
    proof {
        let first = bytes@.take(4);
        if is {
            assert(first =~= magic());
        } else {
            assert(first[0] != magic()[0] || first[1] != magic()[1] || first[2] != magic()[2]
                || first[3] != magic()[3]);
        }
    }
    is
}

fn word_at(bytes: &[u8], offset: usize) -> (word: u32)
    requires
        offset + 4 <= bytes@.len(),
    ensures
        word == wire::parse_u32(bytes@.skip(offset as int))->Ok_0.0,
{
    let mut reader = Reader::new(vstd::slice::slice_subrange(bytes, offset, bytes.len()));
    assert(reader@ =~= bytes@.skip(offset as int));
    proof {
        reveal(wire::parse_u32);
    }
    match reader.u32() {
        Ok(word) => word,
        Err(_) => 0,
    }
}

/// The length of the payload that follows a header, or why none does.
pub fn announced_len(header: &[u8]) -> (result: Result<usize, ProtocolError>)
    requires
        header@.len() >= HEADER_LEN,
    ensures
        wire::counts(result, announced(header@)),
{
    if !is_magic(header) {
        return Err(ProtocolError::BadMagic);
    }
    if header[4] != VERSION {
        return Err(ProtocolError::UnsupportedVersion(header[4]));
    }
    let length: usize = word_at(header, 6) as usize;
    if length > MAX_FRAME_LEN {
        return Err(ProtocolError::FrameTooLarge);
    }
    Ok(length)
}

/// The bytes of a frame.
pub fn encode(frame: &Frame) -> (result: Result<Vec<u8>, ProtocolError>)
    ensures
        match (result, encoded(frame@)) {
            (Ok(bytes), Ok(model)) => bytes@ == model,
            (Err(error), Err(refusal)) => error == refusal,
            _ => false,
        },
{
    let (kind, _) = encoded_message_layout(&frame.message)?;
    let mut payload: Vec<u8> = Vec::new();
    write_message(&mut payload, &frame.message)?;
    proof {
        assert(payload@ =~= message_codec::message_bytes(frame@.message));
        message_codec::lemma_message_counted(frame@.message);
    }
    let mut bytes: Vec<u8> = Vec::new();
    push_bytes(&mut bytes, &MAGIC);
    push_u8(&mut bytes, VERSION);
    push_u8(&mut bytes, kind);
    push_u32(&mut bytes, payload.len() as u32);
    push_u32(&mut bytes, frame.request_id);
    push_bytes(&mut bytes, payload.as_slice());
    assert(bytes@ =~= header_bytes(
        kind,
        payload@.len() as int,
        frame.request_id,
    ) + payload@);
    Ok(bytes)
}

/// The frame that bytes are.
pub fn decode(bytes: &[u8]) -> (result: Result<Frame, ProtocolError>)
    ensures
        match (result, decoded(bytes@)) {
            (Ok(frame), Ok(model)) => frame@ == model,
            (Err(error), Err(refusal)) => error == refusal,
            _ => false,
        },
{
    if bytes.len() < HEADER_LEN {
        return Err(ProtocolError::Truncated);
    }
    let length: usize = announced_len(bytes)?;
    if bytes.len() != HEADER_LEN + length {
        return Err(ProtocolError::LengthMismatch);
    }
    let request_id: u32 = word_at(bytes, 10);
    let mut reader = Reader::new(vstd::slice::slice_subrange(bytes, HEADER_LEN, bytes.len()));
    assert(reader@ =~= bytes@.skip(HEADER_LEN as int));
    let message = read_message(bytes[5], &mut reader)?;
    if !reader.is_finished() {
        return Err(ProtocolError::LengthMismatch);
    }
    Ok(Frame { request_id, message })
}

} // verus!
