//! Raw bytes with their length in front of them.

use vstd::prelude::*;

use crate::error::ProtocolError;
use crate::wire;
use crate::wire::{add_encoded_len, push_bytes, push_u32, Reader};

verus! {

/// A length in four bytes, then that many bytes.
pub open spec fn blob_bytes(bytes: Seq<u8>) -> Seq<u8> {
    wire::be32(bytes.len() as u32) + bytes
}

/// A length past the limit is refused before anything is read.
pub open spec fn parse_blob(s: Seq<u8>, limit: int) -> wire::Parsed<Seq<u8>> {
    match wire::parse_u32(s) {
        Err(e) => Err(e),
        Ok((length, s)) => if length > limit {
            Err(ProtocolError::FrameTooLarge)
        } else {
            wire::parse_bytes(s, length as int)
        },
    }
}

/// A running length after a blob.
pub open spec fn grown_by_blob(total: Result<int, ProtocolError>, bytes: Seq<u8>) -> Result<
    int,
    ProtocolError,
> {
    wire::grown(wire::grown(total, 4), bytes.len() as int)
}

pub proof fn lemma_blob_read_back(bytes: Seq<u8>, limit: int, rest: Seq<u8>)
    requires
        bytes.len() <= limit <= u32::MAX,
    ensures
        parse_blob(blob_bytes(bytes) + rest, limit) == Ok::<_, ProtocolError>((bytes, rest)),
{
    broadcast use wire::group_reading;

}

pub fn add_blob_len(total: usize, bytes: &Vec<u8>) -> (result: Result<usize, ProtocolError>)
    ensures
        wire::counts(result, grown_by_blob(Ok(total as int), bytes@)),
{
    let so_far: usize = add_encoded_len(total, 4)?;
    add_encoded_len(so_far, bytes.len())
}

pub fn push_blob(output: &mut Vec<u8>, bytes: &Vec<u8>)
    requires
        bytes@.len() <= u32::MAX,
    ensures
        final(output)@ == old(output)@ + blob_bytes(bytes@),
{
    broadcast use wire::group_writing;

    push_u32(output, bytes.len() as u32);
    push_bytes(output, bytes.as_slice());
}

pub fn read_blob(reader: &mut Reader<'_>, limit: usize) -> (result: Result<
    Vec<u8>,
    ProtocolError,
>)
    ensures
        wire::reads(result, final(reader)@, parse_blob(old(reader)@, limit as int)),
{
    let length: u32 = reader.u32()?;
    if length as usize > limit {
        return Err(ProtocolError::FrameTooLarge);
    }
    reader.vec(length as usize)
}

} // verus!
