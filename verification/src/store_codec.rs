//! Storage on the wire.

use vstd::prelude::*;

use crate::blob;
use crate::blob::{add_blob_len, push_blob, read_blob};
use crate::error::ProtocolError;
use crate::item;
use crate::item::{add_all_len, read_all, write_all, Wire};
use crate::limits::{
    MAX_FRAME_LEN, MAX_LISTED_KEYS, MAX_SHELF_CHUNK, MAX_STORE_KEYS, MAX_STORE_VALUE,
};
use crate::store::{
    StoreError, StoreRequest, StoreRequestModel, StoreResult, StoreResultModel,
};
use crate::wire;
use crate::wire::{
    add_encoded_len, add_text_len, push_flag, push_text, push_u16, push_u32, push_u8, Reader,
};

verus! {

// ---------------------------------------------------------------------------
// Requests.

#[verifier::opaque]
pub open spec fn request_bytes(request: StoreRequestModel) -> Seq<u8> {
    match request {
        StoreRequestModel::Save { key, value } => seq![0u8] + wire::text_bytes(key)
            + blob::blob_bytes(value),
        StoreRequestModel::Load { key } => seq![1u8] + wire::text_bytes(key),
        StoreRequestModel::Forget { key } => seq![2u8] + wire::text_bytes(key),
        StoreRequestModel::List => seq![3u8],
        StoreRequestModel::ShelfWrite { name, offset, bytes, last } => seq![4u8]
            + wire::text_bytes(name) + wire::be32(offset) + seq![wire::flag_byte(last)]
            + blob::blob_bytes(bytes),
        StoreRequestModel::ShelfRead { name, offset, length } => seq![5u8] + wire::text_bytes(name)
            + wire::be32(offset) + wire::be32(length),
        StoreRequestModel::ShelfRemove { name } => seq![6u8] + wire::text_bytes(name),
        StoreRequestModel::ShelfList => seq![7u8],
    }
}

#[verifier::opaque]
pub open spec fn request_size(request: StoreRequestModel) -> Result<int, ProtocolError> {
    match request {
        StoreRequestModel::Save { key, value } => if value.len() > MAX_STORE_VALUE {
            Err(ProtocolError::FrameTooLarge)
        } else {
            blob::grown_by_blob(wire::grown_text(Ok(1), key), value)
        },
        StoreRequestModel::Load { key } => wire::grown_text(Ok(1), key),
        StoreRequestModel::Forget { key } => wire::grown_text(Ok(1), key),
        StoreRequestModel::List => Ok(1),
        StoreRequestModel::ShelfWrite { name, offset, bytes, last } => if bytes.len()
            > MAX_SHELF_CHUNK {
            Err(ProtocolError::FrameTooLarge)
        } else {
            wire::grown(wire::grown(wire::grown_text(Ok(1), name), 9), bytes.len() as int)
        },
        StoreRequestModel::ShelfRead { name, offset, length } => wire::grown(
            wire::grown_text(Ok(1), name),
            8,
        ),
        StoreRequestModel::ShelfRemove { name } => wire::grown_text(Ok(1), name),
        StoreRequestModel::ShelfList => Ok(1),
    }
}


pub open spec fn parse_save(s: Seq<u8>) -> wire::Parsed<StoreRequestModel> {
    match wire::parse_text(s) {
        Err(e) => Err(e),
        Ok((key, s)) => match blob::parse_blob(s, MAX_STORE_VALUE as int) {
            Err(e) => Err(e),
            Ok((value, s)) => Ok((StoreRequestModel::Save { key, value }, s)),
        },
    }
}

pub open spec fn parse_shelf_write(s: Seq<u8>) -> wire::Parsed<StoreRequestModel> {
    match wire::parse_text(s) {
        Err(e) => Err(e),
        Ok((name, s)) => match wire::parse_u32(s) {
            Err(e) => Err(e),
            Ok((offset, s)) => match wire::parse_flag(s, "shelf finished flag") {
                Err(e) => Err(e),
                Ok((last, s)) => match blob::parse_blob(s, MAX_SHELF_CHUNK as int) {
                    Err(e) => Err(e),
                    Ok((bytes, s)) => Ok(
                        (StoreRequestModel::ShelfWrite { name, offset, bytes, last }, s),
                    ),
                },
            },
        },
    }
}

pub open spec fn parse_shelf_read(s: Seq<u8>) -> wire::Parsed<StoreRequestModel> {
    match wire::parse_text(s) {
        Err(e) => Err(e),
        Ok((name, s)) => match wire::parse_u32(s) {
            Err(e) => Err(e),
            Ok((offset, s)) => match wire::parse_u32(s) {
                Err(e) => Err(e),
                Ok((length, s)) => Ok((StoreRequestModel::ShelfRead { name, offset, length }, s)),
            },
        },
    }
}

pub open spec fn parse_request(s: Seq<u8>) -> wire::Parsed<StoreRequestModel> {
    match wire::parse_u8(s) {
        Err(e) => Err(e),
        Ok((tag, s)) => if tag == 0 {
            parse_save(s)
        } else if tag == 3 {
            Ok((StoreRequestModel::List, s))
        } else if tag == 4 {
            parse_shelf_write(s)
        } else if tag == 5 {
            parse_shelf_read(s)
        } else if tag == 7 {
            Ok((StoreRequestModel::ShelfList, s))
        } else if tag == 1 || tag == 2 || tag == 6 {
            match wire::parse_text(s) {
                Err(e) => Err(e),
                Ok((key, s)) => Ok(
                    (
                        if tag == 1 {
                            StoreRequestModel::Load { key }
                        } else if tag == 2 {
                            StoreRequestModel::Forget { key }
                        } else {
                            StoreRequestModel::ShelfRemove { name: key }
                        },
                        s,
                    ),
                ),
            }
        } else {
            Err(ProtocolError::InvalidValue("store request"))
        },
    }
}

/// Whether every text and blob of a request has room for its length.
#[verifier::opaque]
pub open spec fn request_fits(request: StoreRequestModel) -> bool {
    match request {
        StoreRequestModel::Save { key, value } => wire::text_fits(key) && value.len()
            <= MAX_STORE_VALUE,
        StoreRequestModel::Load { key } => wire::text_fits(key),
        StoreRequestModel::Forget { key } => wire::text_fits(key),
        StoreRequestModel::List => true,
        StoreRequestModel::ShelfWrite { name, offset, bytes, last } => wire::text_fits(name)
            && bytes.len() <= MAX_SHELF_CHUNK,
        StoreRequestModel::ShelfRead { name, offset, length } => wire::text_fits(name),
        StoreRequestModel::ShelfRemove { name } => wire::text_fits(name),
        StoreRequestModel::ShelfList => true,
    }
}

pub proof fn lemma_request_counted(request: StoreRequestModel)
    requires
        request_size(request) is Ok,
    ensures
        request_fits(request),
        request_size(request)->Ok_0 == request_bytes(request).len(),
{
    broadcast use wire::group_lengths;

    reveal(request_size);
    reveal(request_bytes);
    reveal(request_fits);
}

/// A request that can be sent is read back as it was.
pub proof fn lemma_request_read_back(request: StoreRequestModel, rest: Seq<u8>)
    requires
        request_size(request) is Ok,
    ensures
        parse_request(request_bytes(request) + rest) == Ok::<_, ProtocolError>((request, rest)),
{
    broadcast use wire::group_reading;

    lemma_request_counted(request);
    reveal(request_bytes);
    reveal(request_fits);
    match request {
        StoreRequestModel::Save { key, value } => {
            blob::lemma_blob_read_back(value, MAX_STORE_VALUE as int, rest);
        },
        StoreRequestModel::ShelfWrite { name, offset, bytes, last } => {
            blob::lemma_blob_read_back(bytes, MAX_SHELF_CHUNK as int, rest);
        },
        _ => {},
    }
}

pub fn request_len(request: &StoreRequest) -> (result: Result<usize, ProtocolError>)
    ensures
        wire::counts(result, request_size(request@)),
{
    reveal(request_size);
    match request {
        StoreRequest::Save { key, value } => {
            if value.len() > MAX_STORE_VALUE {
                return Err(ProtocolError::FrameTooLarge);
            }
            let length: usize = add_text_len(1, key.as_str())?;
            add_blob_len(length, value)
        },
        StoreRequest::Load { key } => add_text_len(1, key.as_str()),
        StoreRequest::Forget { key } => add_text_len(1, key.as_str()),
        StoreRequest::List => Ok(1),
        StoreRequest::ShelfList => Ok(1),
        StoreRequest::ShelfWrite { name, offset: _, bytes, last: _ } => {
            if bytes.len() > MAX_SHELF_CHUNK {
                return Err(ProtocolError::FrameTooLarge);
            }
            let mut length: usize = add_text_len(1, name.as_str())?;
            length = add_encoded_len(length, 9)?;
            add_encoded_len(length, bytes.len())
        },
        StoreRequest::ShelfRead { name, offset: _, length: _ } => {
            let length: usize = add_text_len(1, name.as_str())?;
            add_encoded_len(length, 8)
        },
        StoreRequest::ShelfRemove { name } => add_text_len(1, name.as_str()),
    }
}

pub fn write_request(output: &mut Vec<u8>, request: &StoreRequest)
    requires
        request_fits(request@),
    ensures
        final(output)@ == old(output)@ + request_bytes(request@),
{
    broadcast use wire::group_writing;

    reveal(request_bytes);
    reveal(request_fits);
    match request {
        StoreRequest::Save { key, value } => {
            push_u8(output, 0);
            push_text(output, key.as_str());
            push_blob(output, value);
        },
        StoreRequest::Load { key } => {
            push_u8(output, 1);
            push_text(output, key.as_str());
        },
        StoreRequest::Forget { key } => {
            push_u8(output, 2);
            push_text(output, key.as_str());
        },
        StoreRequest::List => push_u8(output, 3),
        StoreRequest::ShelfWrite { name, offset, bytes, last } => {
            push_u8(output, 4);
            push_text(output, name.as_str());
            push_u32(output, *offset);
            push_flag(output, *last);
            push_blob(output, bytes);
        },
        StoreRequest::ShelfRead { name, offset, length } => {
            push_u8(output, 5);
            push_text(output, name.as_str());
            push_u32(output, *offset);
            push_u32(output, *length);
        },
        StoreRequest::ShelfRemove { name } => {
            push_u8(output, 6);
            push_text(output, name.as_str());
        },
        StoreRequest::ShelfList => push_u8(output, 7),
    }
}

pub fn read_request(reader: &mut Reader<'_>) -> (result: Result<StoreRequest, ProtocolError>)
    ensures
        wire::reads(result, final(reader)@, parse_request(old(reader)@)),
{
    let tag: u8 = reader.u8()?;
    match tag {
        0 => {
            let key = reader.string()?;
            let value = read_blob(reader, MAX_STORE_VALUE)?;
            Ok(StoreRequest::Save { key, value })
        },
        1 => {
            let key = reader.string()?;
            Ok(StoreRequest::Load { key })
        },
        2 => {
            let key = reader.string()?;
            Ok(StoreRequest::Forget { key })
        },
        3 => Ok(StoreRequest::List),
        4 => {
            let name = reader.string()?;
            let offset: u32 = reader.u32()?;
            let last = reader.flag("shelf finished flag")?;
            let bytes = read_blob(reader, MAX_SHELF_CHUNK)?;
            Ok(StoreRequest::ShelfWrite { name, offset, bytes, last })
        },
        5 => {
            let name = reader.string()?;
            let offset: u32 = reader.u32()?;
            let length: u32 = reader.u32()?;
            Ok(StoreRequest::ShelfRead { name, offset, length })
        },
        6 => {
            let name = reader.string()?;
            Ok(StoreRequest::ShelfRemove { name })
        },
        7 => Ok(StoreRequest::ShelfList),
        _ => Err(ProtocolError::InvalidValue("store request")),
    }
}

// ---------------------------------------------------------------------------
// Results.

pub open spec fn value_bytes(value: Option<Seq<u8>>) -> Seq<u8> {
    match value {
        None => seq![0u8],
        Some(value) => seq![1u8] + blob::blob_bytes(value),
    }
}

#[verifier::opaque]
pub open spec fn result_bytes(result: StoreResultModel) -> Seq<u8> {
    match result {
        StoreResultModel::Saved { key } => seq![0u8] + wire::text_bytes(key),
        StoreResultModel::Loaded { key, value } => seq![1u8] + wire::text_bytes(key) + value_bytes(
            value,
        ),
        StoreResultModel::Forgotten { key } => seq![2u8] + wire::text_bytes(key),
        StoreResultModel::Keys(keys) => seq![3u8] + wire::be16(keys.len() as u16)
            + item::bytes_of_all::<String>(keys),
        StoreResultModel::Denied(error) => seq![4u8] + seq![error.tag()],
        StoreResultModel::ShelfWritten { name, size } => seq![5u8] + wire::text_bytes(name)
            + wire::be32(size),
        StoreResultModel::ShelfRead { name, offset, bytes, size } => seq![6u8] + wire::text_bytes(
            name,
        ) + wire::be32(offset) + wire::be32(size) + blob::blob_bytes(bytes),
        StoreResultModel::ShelfRemoved { name } => seq![7u8] + wire::text_bytes(name),
        StoreResultModel::Shelf(blobs) => seq![8u8] + wire::be16(blobs.len() as u16)
            + item::bytes_of_all::<(String, u32)>(blobs),
    }
}

#[verifier::opaque]
pub open spec fn result_size(result: StoreResultModel) -> Result<int, ProtocolError> {
    match result {
        StoreResultModel::Saved { key } => wire::grown_text(Ok(1), key),
        StoreResultModel::Forgotten { key } => wire::grown_text(Ok(1), key),
        StoreResultModel::Loaded { key, value } => {
            let flagged = wire::grown(wire::grown_text(Ok(1), key), 1);
            match value {
                None => flagged,
                Some(value) => if flagged is Ok && value.len() > MAX_STORE_VALUE {
                    Err(ProtocolError::FrameTooLarge)
                } else {
                    blob::grown_by_blob(flagged, value)
                },
            }
        },
        StoreResultModel::Keys(keys) => if keys.len() > MAX_LISTED_KEYS {
            Err(ProtocolError::FrameTooLarge)
        } else {
            item::grown_by_all::<String>(keys, wire::grown(Ok(1), 2))
        },
        StoreResultModel::Denied(error) => Ok(2),
        StoreResultModel::ShelfWritten { name, size } => wire::grown(
            wire::grown_text(Ok(1), name),
            4,
        ),
        StoreResultModel::ShelfRemoved { name } => wire::grown_text(Ok(1), name),
        StoreResultModel::ShelfRead { name, offset, bytes, size } => if bytes.len()
            > MAX_SHELF_CHUNK {
            Err(ProtocolError::FrameTooLarge)
        } else {
            wire::grown(wire::grown(wire::grown_text(Ok(1), name), 12), bytes.len() as int)
        },
        StoreResultModel::Shelf(blobs) => if blobs.len() > MAX_STORE_KEYS {
            Err(ProtocolError::FrameTooLarge)
        } else {
            item::grown_by_all::<(String, u32)>(blobs, wire::grown(Ok(1), 2))
        },
    }
}

#[verifier::opaque]
pub open spec fn result_fits(result: StoreResultModel) -> bool {
    match result {
        StoreResultModel::Saved { key } => wire::text_fits(key),
        StoreResultModel::Forgotten { key } => wire::text_fits(key),
        StoreResultModel::Loaded { key, value } => wire::text_fits(key) && (value is Some
            ==> value->0.len() <= MAX_STORE_VALUE),
        StoreResultModel::Keys(keys) => keys.len() <= MAX_LISTED_KEYS && item::all_fit::<String>(
            keys,
        ),
        StoreResultModel::Denied(error) => true,
        StoreResultModel::ShelfWritten { name, size } => wire::text_fits(name),
        StoreResultModel::ShelfRemoved { name } => wire::text_fits(name),
        StoreResultModel::ShelfRead { name, offset, bytes, size } => wire::text_fits(name)
            && bytes.len() <= MAX_SHELF_CHUNK,
        StoreResultModel::Shelf(blobs) => blobs.len() <= MAX_STORE_KEYS && item::all_fit::<
            (String, u32),
        >(blobs),
    }
}

pub open spec fn parse_value(s: Seq<u8>) -> wire::Parsed<Option<Seq<u8>>> {
    match wire::parse_u8(s) {
        Err(e) => Err(e),
        Ok((flag, s)) => if flag == 0 {
            Ok((None, s))
        } else if flag == 1 {
            match blob::parse_blob(s, MAX_STORE_VALUE as int) {
                Err(e) => Err(e),
                Ok((value, s)) => Ok((Some(value), s)),
            }
        } else {
            Err(ProtocolError::InvalidValue("stored value"))
        },
    }
}

pub open spec fn parse_keys(s: Seq<u8>) -> wire::Parsed<StoreResultModel> {
    match wire::parse_u16(s) {
        Err(e) => Err(e),
        Ok((count, s)) => if count > MAX_LISTED_KEYS {
            Err(ProtocolError::FrameTooLarge)
        } else {
            match item::parse_all::<String>(s, count as nat) {
                Err(e) => Err(e),
                Ok((keys, s)) => Ok((StoreResultModel::Keys(keys), s)),
            }
        },
    }
}

pub open spec fn parse_shelf(s: Seq<u8>) -> wire::Parsed<StoreResultModel> {
    match wire::parse_u16(s) {
        Err(e) => Err(e),
        Ok((count, s)) => if count > MAX_STORE_KEYS {
            Err(ProtocolError::FrameTooLarge)
        } else {
            match item::parse_all::<(String, u32)>(s, count as nat) {
                Err(e) => Err(e),
                Ok((blobs, s)) => Ok((StoreResultModel::Shelf(blobs), s)),
            }
        },
    }
}

pub open spec fn parse_shelf_piece(s: Seq<u8>) -> wire::Parsed<StoreResultModel> {
    match wire::parse_text(s) {
        Err(e) => Err(e),
        Ok((name, s)) => match wire::parse_u32(s) {
            Err(e) => Err(e),
            Ok((offset, s)) => match wire::parse_u32(s) {
                Err(e) => Err(e),
                Ok((size, s)) => match blob::parse_blob(s, MAX_SHELF_CHUNK as int) {
                    Err(e) => Err(e),
                    Ok((bytes, s)) => Ok(
                        (StoreResultModel::ShelfRead { name, offset, bytes, size }, s),
                    ),
                },
            },
        },
    }
}

pub open spec fn parse_result(s: Seq<u8>) -> wire::Parsed<StoreResultModel> {
    match wire::parse_u8(s) {
        Err(e) => Err(e),
        Ok((tag, s)) => if tag == 0 || tag == 2 || tag == 7 {
            match wire::parse_text(s) {
                Err(e) => Err(e),
                Ok((key, s)) => Ok(
                    (
                        if tag == 0 {
                            StoreResultModel::Saved { key }
                        } else if tag == 2 {
                            StoreResultModel::Forgotten { key }
                        } else {
                            StoreResultModel::ShelfRemoved { name: key }
                        },
                        s,
                    ),
                ),
            }
        } else if tag == 1 {
            match wire::parse_text(s) {
                Err(e) => Err(e),
                Ok((key, s)) => match parse_value(s) {
                    Err(e) => Err(e),
                    Ok((value, s)) => Ok((StoreResultModel::Loaded { key, value }, s)),
                },
            }
        } else if tag == 3 {
            parse_keys(s)
        } else if tag == 4 {
            match wire::parse_u8(s) {
                Err(e) => Err(e),
                Ok((tag, s)) => match StoreError::of_tag(tag) {
                    Err(e) => Err(e),
                    Ok(error) => Ok((StoreResultModel::Denied(error), s)),
                },
            }
        } else if tag == 5 {
            match wire::parse_text(s) {
                Err(e) => Err(e),
                Ok((name, s)) => match wire::parse_u32(s) {
                    Err(e) => Err(e),
                    Ok((size, s)) => Ok((StoreResultModel::ShelfWritten { name, size }, s)),
                },
            }
        } else if tag == 6 {
            parse_shelf_piece(s)
        } else if tag == 8 {
            parse_shelf(s)
        } else {
            Err(ProtocolError::InvalidValue("store result"))
        },
    }
}

pub proof fn lemma_result_counted(result: StoreResultModel)
    requires
        result_size(result) is Ok,
    ensures
        result_fits(result),
        result_size(result)->Ok_0 == result_bytes(result).len(),
{
    broadcast use wire::group_lengths;

    reveal(result_size);
    reveal(result_bytes);
    reveal(result_fits);
    match result {
        StoreResultModel::Keys(keys) => item::lemma_all_counted::<String>(keys, 3),
        StoreResultModel::Shelf(blobs) => item::lemma_all_counted::<(String, u32)>(blobs, 3),
        _ => {},
    }
}

/// An answer that can be sent is read back as it was.
pub proof fn lemma_result_read_back(result: StoreResultModel, rest: Seq<u8>)
    requires
        result_size(result) is Ok,
    ensures
        parse_result(result_bytes(result) + rest) == Ok::<_, ProtocolError>((result, rest)),
{
    broadcast use wire::group_reading;

    lemma_result_counted(result);
    reveal(result_bytes);
    reveal(result_fits);
    match result {
        StoreResultModel::Loaded { key, value } => {
            if let Some(value) = value {
                blob::lemma_blob_read_back(value, MAX_STORE_VALUE as int, rest);
            }
        },
        StoreResultModel::Keys(keys) => item::lemma_all_read_back::<String>(keys, rest),
        StoreResultModel::ShelfRead { name, offset, bytes, size } => {
            blob::lemma_blob_read_back(bytes, MAX_SHELF_CHUNK as int, rest);
        },
        StoreResultModel::Shelf(blobs) => item::lemma_all_read_back::<(String, u32)>(blobs, rest),
        _ => {},
    }
}

pub fn result_len(answer: &StoreResult) -> (result: Result<usize, ProtocolError>)
    ensures
        wire::counts(result, result_size(answer@)),
{
    reveal(result_size);
    match answer {
        StoreResult::Saved { key } => add_text_len(1, key.as_str()),
        StoreResult::Forgotten { key } => add_text_len(1, key.as_str()),
        StoreResult::Loaded { key, value } => {
            let mut length: usize = add_text_len(1, key.as_str())?;
            length = add_encoded_len(length, 1)?;
            match value {
                None => Ok(length),
                Some(value) => {
                    if value.len() > MAX_STORE_VALUE {
                        return Err(ProtocolError::FrameTooLarge);
                    }
                    add_blob_len(length, value)
                },
            }
        },
        StoreResult::Keys(keys) => {
            if keys.len() > MAX_LISTED_KEYS {
                return Err(ProtocolError::FrameTooLarge);
            }
            add_all_len(keys, 3)
        },
        StoreResult::Denied(_) => Ok(2),
        StoreResult::ShelfWritten { name, size: _ } => {
            let length: usize = add_text_len(1, name.as_str())?;
            add_encoded_len(length, 4)
        },
        StoreResult::ShelfRemoved { name } => add_text_len(1, name.as_str()),
        StoreResult::ShelfRead { name, offset: _, bytes, size: _ } => {
            if bytes.len() > MAX_SHELF_CHUNK {
                return Err(ProtocolError::FrameTooLarge);
            }
            let mut length: usize = add_text_len(1, name.as_str())?;
            length = add_encoded_len(length, 12)?;
            add_encoded_len(length, bytes.len())
        },
        StoreResult::Shelf(blobs) => {
            if blobs.len() > MAX_STORE_KEYS {
                return Err(ProtocolError::FrameTooLarge);
            }
            add_all_len(blobs, 3)
        },
    }
}

pub fn write_result(output: &mut Vec<u8>, answer: &StoreResult)
    requires
        result_fits(answer@),
    ensures
        final(output)@ == old(output)@ + result_bytes(answer@),
{
    broadcast use wire::group_writing;

    reveal(result_bytes);
    reveal(result_fits);
    match answer {
        StoreResult::Saved { key } => {
            push_u8(output, 0);
            push_text(output, key.as_str());
        },
        StoreResult::Loaded { key, value } => {
            push_u8(output, 1);
            push_text(output, key.as_str());
            match value {
                None => push_u8(output, 0),
                Some(value) => {
                    push_u8(output, 1);
                    push_blob(output, value);
                },
            }
        },
        StoreResult::Forgotten { key } => {
            push_u8(output, 2);
            push_text(output, key.as_str());
        },
        StoreResult::Keys(keys) => {
            push_u8(output, 3);
            push_u16(output, keys.len() as u16);
            write_all(output, keys);
        },
        StoreResult::Denied(error) => {
            push_u8(output, 4);
            push_u8(output, error.to_tag());
        },
        StoreResult::ShelfWritten { name, size } => {
            push_u8(output, 5);
            push_text(output, name.as_str());
            push_u32(output, *size);
        },
        StoreResult::ShelfRead { name, offset, bytes, size } => {
            push_u8(output, 6);
            push_text(output, name.as_str());
            push_u32(output, *offset);
            push_u32(output, *size);
            push_blob(output, bytes);
        },
        StoreResult::ShelfRemoved { name } => {
            push_u8(output, 7);
            push_text(output, name.as_str());
        },
        StoreResult::Shelf(blobs) => {
            push_u8(output, 8);
            push_u16(output, blobs.len() as u16);
            write_all(output, blobs);
        },
    }
}

pub fn read_result(reader: &mut Reader<'_>) -> (result: Result<StoreResult, ProtocolError>)
    ensures
        wire::reads(result, final(reader)@, parse_result(old(reader)@)),
{
    let tag: u8 = reader.u8()?;
    match tag {
        0 => {
            let key = reader.string()?;
            Ok(StoreResult::Saved { key })
        },
        1 => {
            let key = reader.string()?;
            let flag: u8 = reader.u8()?;
            let value = match flag {
                0 => None,
                1 => Some(read_blob(reader, MAX_STORE_VALUE)?),
                _ => return Err(ProtocolError::InvalidValue("stored value")),
            };
            Ok(StoreResult::Loaded { key, value })
        },
        2 => {
            let key = reader.string()?;
            Ok(StoreResult::Forgotten { key })
        },
        3 => {
            let count: u16 = reader.u16()?;
            if count as usize > MAX_LISTED_KEYS {
                return Err(ProtocolError::FrameTooLarge);
            }
            let keys = read_all::<String>(reader, count as usize)?;
            Ok(StoreResult::Keys(keys))
        },
        4 => {
            let error = StoreError::from_tag(reader.u8()?)?;
            Ok(StoreResult::Denied(error))
        },
        5 => {
            let name = reader.string()?;
            let size: u32 = reader.u32()?;
            Ok(StoreResult::ShelfWritten { name, size })
        },
        6 => {
            let name = reader.string()?;
            let offset: u32 = reader.u32()?;
            let size: u32 = reader.u32()?;
            let bytes = read_blob(reader, MAX_SHELF_CHUNK)?;
            Ok(StoreResult::ShelfRead { name, offset, bytes, size })
        },
        7 => {
            let name = reader.string()?;
            Ok(StoreResult::ShelfRemoved { name })
        },
        8 => {
            let count: u16 = reader.u16()?;
            if count as usize > MAX_STORE_KEYS {
                return Err(ProtocolError::FrameTooLarge);
            }
            let blobs = read_all::<(String, u32)>(reader, count as usize)?;
            Ok(StoreResult::Shelf(blobs))
        },
        _ => Err(ProtocolError::InvalidValue("store result")),
    }
}

/// A request that was counted is no longer than a frame may be.
pub proof fn lemma_request_bounded(request: StoreRequestModel)
    requires
        request_size(request) is Ok,
    ensures
        request_size(request)->Ok_0 <= MAX_FRAME_LEN,
{
    reveal(request_size);
}

/// An answer that was counted is no longer than a frame may be.
pub proof fn lemma_result_bounded(result: StoreResultModel)
    requires
        result_size(result) is Ok,
    ensures
        result_size(result)->Ok_0 <= MAX_FRAME_LEN,
{
    reveal(result_size);
    match result {
        StoreResultModel::Keys(keys) => item::lemma_all_bounded::<String>(keys, 3),
        StoreResultModel::Shelf(blobs) => item::lemma_all_bounded::<(String, u32)>(blobs, 3),
        _ => {},
    }
}

} // verus!
