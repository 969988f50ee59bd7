//! Sessions on the wire.

use vstd::prelude::*;

use crate::error::ProtocolError;
use crate::limits::MAX_SHELL_CHUNK;
use crate::shell::{ShellError, ShellEvent, ShellEventModel, ShellRequest, ShellRequestModel};
use crate::wire;
use crate::wire::{
    push_bytes, push_u16, push_u32, push_u8, signed_word, word_bits, Reader,
};

verus! {

// ---------------------------------------------------------------------------
// A chunk of a session: a length in two bytes, then that many bytes.

pub open spec fn chunk_bytes(bytes: Seq<u8>) -> Seq<u8> {
    wire::be16(bytes.len() as u16) + bytes
}

pub open spec fn parse_chunk(s: Seq<u8>) -> wire::Parsed<Seq<u8>> {
    match wire::parse_u16(s) {
        Err(e) => Err(e),
        Ok((length, s)) => if length > MAX_SHELL_CHUNK {
            Err(ProtocolError::FrameTooLarge)
        } else {
            wire::parse_bytes(s, length as int)
        },
    }
}

/// The length of a chunk with a tag in front of it.
pub open spec fn chunk_size(bytes: Seq<u8>) -> Result<int, ProtocolError> {
    if bytes.len() > MAX_SHELL_CHUNK {
        Err(ProtocolError::FrameTooLarge)
    } else {
        Ok(3 + bytes.len() as int)
    }
}

fn shell_chunk_len(bytes: &Vec<u8>) -> (result: Result<usize, ProtocolError>)
    ensures
        wire::counts(result, chunk_size(bytes@)),
{
    if bytes.len() > MAX_SHELL_CHUNK {
        return Err(ProtocolError::FrameTooLarge);
    }
    Ok(3 + bytes.len())
}

fn push_shell_bytes(output: &mut Vec<u8>, bytes: &Vec<u8>)
    requires
        bytes@.len() <= MAX_SHELL_CHUNK,
    ensures
        final(output)@ == old(output)@ + chunk_bytes(bytes@),
{
    broadcast use wire::group_writing;

    push_u16(output, bytes.len() as u16);
    push_bytes(output, bytes.as_slice());
}

fn read_shell_bytes(reader: &mut Reader<'_>) -> (result: Result<Vec<u8>, ProtocolError>)
    ensures
        wire::reads(result, final(reader)@, parse_chunk(old(reader)@)),
{
    let length: u16 = reader.u16()?;
    if length as usize > MAX_SHELL_CHUNK {
        return Err(ProtocolError::FrameTooLarge);
    }
    reader.vec(length as usize)
}

// ---------------------------------------------------------------------------
// Requests.

pub open spec fn shell_request_bytes(request: ShellRequestModel) -> Seq<u8> {
    match request {
        ShellRequestModel::Open { columns, rows } => seq![0u8] + wire::be16(columns) + wire::be16(
            rows,
        ),
        ShellRequestModel::Input(bytes) => seq![1u8] + chunk_bytes(bytes),
        ShellRequestModel::Resize { columns, rows } => seq![2u8] + wire::be16(columns)
            + wire::be16(rows),
        ShellRequestModel::Close => seq![3u8],
    }
}

pub open spec fn shell_request_size(request: ShellRequestModel) -> Result<int, ProtocolError> {
    match request {
        ShellRequestModel::Open { columns, rows } => Ok(5),
        ShellRequestModel::Input(bytes) => chunk_size(bytes),
        ShellRequestModel::Resize { columns, rows } => Ok(5),
        ShellRequestModel::Close => Ok(1),
    }
}

pub open spec fn parse_shell_request(s: Seq<u8>) -> wire::Parsed<ShellRequestModel> {
    match wire::parse_u8(s) {
        Err(e) => Err(e),
        Ok((tag, s)) => if tag == 0 || tag == 2 {
            match wire::parse_u16(s) {
                Err(e) => Err(e),
                Ok((columns, s)) => match wire::parse_u16(s) {
                    Err(e) => Err(e),
                    Ok((rows, s)) => Ok(
                        (
                            if tag == 0 {
                                ShellRequestModel::Open { columns, rows }
                            } else {
                                ShellRequestModel::Resize { columns, rows }
                            },
                            s,
                        ),
                    ),
                },
            }
        } else if tag == 1 {
            match parse_chunk(s) {
                Err(e) => Err(e),
                Ok((bytes, s)) => Ok((ShellRequestModel::Input(bytes), s)),
            }
        } else if tag == 3 {
            Ok((ShellRequestModel::Close, s))
        } else {
            Err(ProtocolError::InvalidValue("shell request"))
        },
    }
}

pub proof fn lemma_shell_request_counted(request: ShellRequestModel)
    requires
        shell_request_size(request) is Ok,
    ensures
        shell_request_size(request)->Ok_0 == shell_request_bytes(request).len(),
{
    broadcast use wire::group_lengths;

}

/// A request that can be sent is read back as it was.
pub proof fn lemma_shell_request_read_back(request: ShellRequestModel, rest: Seq<u8>)
    requires
        shell_request_size(request) is Ok,
    ensures
        parse_shell_request(shell_request_bytes(request) + rest) == Ok::<_, ProtocolError>(
            (request, rest),
        ),
{
    broadcast use wire::group_reading;

}

pub fn shell_request_len(request: &ShellRequest) -> (result: Result<usize, ProtocolError>)
    ensures
        wire::counts(result, shell_request_size(request@)),
{
    match request {
        ShellRequest::Open { .. } => Ok(5),
        ShellRequest::Resize { .. } => Ok(5),
        ShellRequest::Input(bytes) => shell_chunk_len(bytes),
        ShellRequest::Close => Ok(1),
    }
}

pub fn write_shell_request(output: &mut Vec<u8>, request: &ShellRequest)
    requires
        shell_request_size(request@) is Ok,
    ensures
        final(output)@ == old(output)@ + shell_request_bytes(request@),
{
    broadcast use wire::group_writing;

    match request {
        ShellRequest::Open { columns, rows } => {
            push_u8(output, 0);
            push_u16(output, *columns);
            push_u16(output, *rows);
        },
        ShellRequest::Input(bytes) => {
            push_u8(output, 1);
            push_shell_bytes(output, bytes);
        },
        ShellRequest::Resize { columns, rows } => {
            push_u8(output, 2);
            push_u16(output, *columns);
            push_u16(output, *rows);
        },
        ShellRequest::Close => push_u8(output, 3),
    }
}

pub fn read_shell_request(reader: &mut Reader<'_>) -> (result: Result<
    ShellRequest,
    ProtocolError,
>)
    ensures
        wire::reads(result, final(reader)@, parse_shell_request(old(reader)@)),
{
    let tag: u8 = reader.u8()?;
    match tag {
        0 => {
            let columns: u16 = reader.u16()?;
            let rows: u16 = reader.u16()?;
            Ok(ShellRequest::Open { columns, rows })
        },
        1 => {
            let bytes = read_shell_bytes(reader)?;
            Ok(ShellRequest::Input(bytes))
        },
        2 => {
            let columns: u16 = reader.u16()?;
            let rows: u16 = reader.u16()?;
            Ok(ShellRequest::Resize { columns, rows })
        },
        3 => Ok(ShellRequest::Close),
        _ => Err(ProtocolError::InvalidValue("shell request")),
    }
}

// ---------------------------------------------------------------------------
// Events. An exit status is signed, and goes out as its two's complement.

pub open spec fn shell_event_bytes(event: ShellEventModel) -> Seq<u8> {
    match event {
        ShellEventModel::Opened => seq![0u8],
        ShellEventModel::Output(bytes) => seq![1u8] + chunk_bytes(bytes),
        ShellEventModel::Closed { status } => seq![2u8] + wire::be32(wire::bits_of_i32(status)),
        ShellEventModel::Refused(error) => seq![3u8] + seq![error.tag()],
    }
}

pub open spec fn shell_event_size(event: ShellEventModel) -> Result<int, ProtocolError> {
    match event {
        ShellEventModel::Opened => Ok(1),
        ShellEventModel::Output(bytes) => chunk_size(bytes),
        ShellEventModel::Closed { status } => Ok(5),
        ShellEventModel::Refused(error) => Ok(2),
    }
}

pub open spec fn parse_shell_event(s: Seq<u8>) -> wire::Parsed<ShellEventModel> {
    match wire::parse_u8(s) {
        Err(e) => Err(e),
        Ok((tag, s)) => if tag == 0 {
            Ok((ShellEventModel::Opened, s))
        } else if tag == 1 {
            match parse_chunk(s) {
                Err(e) => Err(e),
                Ok((bytes, s)) => Ok((ShellEventModel::Output(bytes), s)),
            }
        } else if tag == 2 {
            match wire::parse_u32(s) {
                Err(e) => Err(e),
                Ok((bits, s)) => Ok(
                    (ShellEventModel::Closed { status: wire::i32_of_bits(bits) }, s),
                ),
            }
        } else if tag == 3 {
            match wire::parse_u8(s) {
                Err(e) => Err(e),
                Ok((tag, s)) => match ShellError::of_tag(tag) {
                    Err(e) => Err(e),
                    Ok(error) => Ok((ShellEventModel::Refused(error), s)),
                },
            }
        } else {
            Err(ProtocolError::InvalidValue("shell event"))
        },
    }
}

pub proof fn lemma_shell_event_counted(event: ShellEventModel)
    requires
        shell_event_size(event) is Ok,
    ensures
        shell_event_size(event)->Ok_0 == shell_event_bytes(event).len(),
{
    broadcast use wire::group_lengths;

}

/// An event that can be sent is read back as it was.
pub proof fn lemma_shell_event_read_back(event: ShellEventModel, rest: Seq<u8>)
    requires
        shell_event_size(event) is Ok,
    ensures
        parse_shell_event(shell_event_bytes(event) + rest) == Ok::<_, ProtocolError>(
            (event, rest),
        ),
{
    broadcast use wire::group_reading;

}

pub fn shell_event_len(event: &ShellEvent) -> (result: Result<usize, ProtocolError>)
    ensures
        wire::counts(result, shell_event_size(event@)),
{
    match event {
        ShellEvent::Opened => Ok(1),
        ShellEvent::Output(bytes) => shell_chunk_len(bytes),
        ShellEvent::Closed { .. } => Ok(5),
        ShellEvent::Refused(_) => Ok(2),
    }
}

pub fn write_shell_event(output: &mut Vec<u8>, event: &ShellEvent)
    requires
        shell_event_size(event@) is Ok,
    ensures
        final(output)@ == old(output)@ + shell_event_bytes(event@),
{
    broadcast use wire::group_writing;

    match event {
        ShellEvent::Opened => push_u8(output, 0),
        ShellEvent::Output(bytes) => {
            push_u8(output, 1);
            push_shell_bytes(output, bytes);
        },
        ShellEvent::Closed { status } => {
            push_u8(output, 2);
            push_u32(output, word_bits(*status));
        },
        ShellEvent::Refused(error) => {
            push_u8(output, 3);
            push_u8(output, error.to_tag());
        },
    }
}

pub fn read_shell_event(reader: &mut Reader<'_>) -> (result: Result<ShellEvent, ProtocolError>)
    ensures
        wire::reads(result, final(reader)@, parse_shell_event(old(reader)@)),
{
    let tag: u8 = reader.u8()?;
    match tag {
        0 => Ok(ShellEvent::Opened),
        1 => {
            let bytes = read_shell_bytes(reader)?;
            Ok(ShellEvent::Output(bytes))
        },
        2 => {
            let status: i32 = signed_word(reader.u32()?);
            Ok(ShellEvent::Closed { status })
        },
        3 => {
            let error = ShellError::from_tag(reader.u8()?)?;
            Ok(ShellEvent::Refused(error))
        },
        _ => Err(ProtocolError::InvalidValue("shell event")),
    }
}

} // verus!
