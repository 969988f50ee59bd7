//! What an application keeps on the card.

use vstd::prelude::*;

use crate::error::ProtocolError;
use crate::item;
use crate::item::{copied, copied_sizes};
use crate::limits::{CACHE_PREFIX, MAX_STORE_KEY_LEN};
use crate::text;
use crate::text::{begins_with, drawn_from, Alphabet};
use crate::wire;
use crate::wire::byte_len;

verus! {

/// What an application asks of its own storage.
#[derive(Debug, PartialEq, Eq)]
pub enum StoreRequest {
    /// Writes a value, replacing whatever was there.
    Save { key: String, value: Vec<u8> },
    /// Reads a value back. A key that was never written is not an error.
    Load { key: String },
    /// Removes a key.
    Forget { key: String },
    /// Lists the keys this application has written.
    List,
    /// Writes part of a blob, at a byte offset within it. `last` finishes the
    /// blob, which is when it becomes readable under its name.
    ShelfWrite { name: String, offset: u32, bytes: Vec<u8>, last: bool },
    /// Reads part of a blob.
    ShelfRead { name: String, offset: u32, length: u32 },
    /// Removes a blob, and any half-written copy of it.
    ShelfRemove { name: String },
    /// Lists the blobs this application has finished writing, with their sizes.
    ShelfList,
}

/// What a [`StoreRequest`] says.
pub enum StoreRequestModel {
    Save { key: Seq<char>, value: Seq<u8> },
    Load { key: Seq<char> },
    Forget { key: Seq<char> },
    List,
    ShelfWrite { name: Seq<char>, offset: u32, bytes: Seq<u8>, last: bool },
    ShelfRead { name: Seq<char>, offset: u32, length: u32 },
    ShelfRemove { name: Seq<char> },
    ShelfList,
}

impl View for StoreRequest {
    type V = StoreRequestModel;

    open spec fn view(&self) -> StoreRequestModel {
        match *self {
            StoreRequest::Save { key, value } => StoreRequestModel::Save {
                key: key@,
                value: value@,
            },
            StoreRequest::Load { key } => StoreRequestModel::Load {
                key: key@,
            },
            StoreRequest::Forget { key } => StoreRequestModel::Forget {
                key: key@,
            },
            StoreRequest::List => StoreRequestModel::List,
            StoreRequest::ShelfWrite {
                name,
                offset,
                bytes,
                last,
            } => StoreRequestModel::ShelfWrite {
                name: name@,
                offset,
                bytes: bytes@,
                last,
            },
            StoreRequest::ShelfRead { name, offset, length } => StoreRequestModel::ShelfRead {
                name: name@,
                offset,
                length,
            },
            StoreRequest::ShelfRemove { name } => StoreRequestModel::ShelfRemove {
                name: name@,
            },
            StoreRequest::ShelfList => StoreRequestModel::ShelfList,
        }
    }
}

impl Clone for StoreRequest {
    fn clone(&self) -> (copy: Self)
        ensures
            copy@ == self@,
    {
        match self {
            StoreRequest::Save { key, value } => {
                StoreRequest::Save {
                    key: key.clone(),
                    value: copied(value),
                }
            },
            StoreRequest::Load { key } => {
                StoreRequest::Load {
                    key: key.clone(),
                }
            },
            StoreRequest::Forget { key } => {
                StoreRequest::Forget {
                    key: key.clone(),
                }
            },
            StoreRequest::List => StoreRequest::List,
            StoreRequest::ShelfWrite { name, offset, bytes, last } => {
                StoreRequest::ShelfWrite {
                    name: name.clone(),
                    offset: *offset,
                    bytes: copied(bytes),
                    last: *last,
                }
            },
            StoreRequest::ShelfRead { name, offset, length } => {
                StoreRequest::ShelfRead {
                    name: name.clone(),
                    offset: *offset,
                    length: *length,
                }
            },
            StoreRequest::ShelfRemove { name } => {
                StoreRequest::ShelfRemove {
                    name: name.clone(),
                }
            },
            StoreRequest::ShelfList => StoreRequest::ShelfList,
        }
    }
}

/// The runtime's answer to one request.
#[derive(Debug, PartialEq, Eq)]
pub enum StoreResult {
    Saved { key: String },
    /// No value means the key has never been written.
    Loaded { key: String, value: Option<Vec<u8>> },
    Forgotten { key: String },
    Keys(Vec<String>),
    Denied(StoreError),
    /// A piece of a blob landed. `size` is how much of it exists so far.
    ShelfWritten { name: String, size: u32 },
    /// A piece of a blob. `size` is the whole length of the blob.
    ShelfRead { name: String, offset: u32, bytes: Vec<u8>, size: u32 },
    ShelfRemoved { name: String },
    Shelf(Vec<(String, u32)>),
}

/// What a [`StoreResult`] says.
pub enum StoreResultModel {
    Saved { key: Seq<char> },
    Loaded { key: Seq<char>, value: Option<Seq<u8>> },
    Forgotten { key: Seq<char> },
    Keys(Seq<Seq<char>>),
    Denied(StoreError),
    ShelfWritten { name: Seq<char>, size: u32 },
    ShelfRead { name: Seq<char>, offset: u32, bytes: Seq<u8>, size: u32 },
    ShelfRemoved { name: Seq<char> },
    Shelf(Seq<(Seq<char>, u32)>),
}

impl View for StoreResult {
    type V = StoreResultModel;

    open spec fn view(&self) -> StoreResultModel {
        match *self {
            StoreResult::Saved { key } => StoreResultModel::Saved {
                key: key@,
            },
            StoreResult::Loaded { key, value } => StoreResultModel::Loaded {
                key: key@,
                value: match value { None => None, Some(inner) => Some(inner@) },
            },
            StoreResult::Forgotten { key } => StoreResultModel::Forgotten {
                key: key@,
            },
            StoreResult::Keys(inner) => StoreResultModel::Keys(item::models(inner@)),
            StoreResult::Denied(inner) => StoreResultModel::Denied(inner),
            StoreResult::ShelfWritten { name, size } => StoreResultModel::ShelfWritten {
                name: name@,
                size,
            },
            StoreResult::ShelfRead { name, offset, bytes, size } => StoreResultModel::ShelfRead {
                name: name@,
                offset,
                bytes: bytes@,
                size,
            },
            StoreResult::ShelfRemoved { name } => StoreResultModel::ShelfRemoved {
                name: name@,
            },
            StoreResult::Shelf(inner) => StoreResultModel::Shelf(item::models(inner@)),
        }
    }
}

impl Clone for StoreResult {
    fn clone(&self) -> (copy: Self)
        ensures
            copy@ == self@,
    {
        match self {
            StoreResult::Saved { key } => {
                StoreResult::Saved {
                    key: key.clone(),
                }
            },
            StoreResult::Loaded { key, value } => {
                StoreResult::Loaded {
                    key: key.clone(),
                    value: match value { None => None, Some(inner) => Some(copied(inner)) },
                }
            },
            StoreResult::Forgotten { key } => {
                StoreResult::Forgotten {
                    key: key.clone(),
                }
            },
            StoreResult::Keys(inner) => {
                let list = inner.clone();
                assert(item::models(list@) =~= item::models(inner@));
                StoreResult::Keys(list)
            },
            StoreResult::Denied(inner) => StoreResult::Denied(*inner),
            StoreResult::ShelfWritten { name, size } => {
                StoreResult::ShelfWritten {
                    name: name.clone(),
                    size: *size,
                }
            },
            StoreResult::ShelfRead { name, offset, bytes, size } => {
                StoreResult::ShelfRead {
                    name: name.clone(),
                    offset: *offset,
                    bytes: copied(bytes),
                    size: *size,
                }
            },
            StoreResult::ShelfRemoved { name } => {
                StoreResult::ShelfRemoved {
                    name: name.clone(),
                }
            },
            StoreResult::Shelf(inner) => StoreResult::Shelf(copied_sizes(inner)),
        }
    }
}

/// Why a request was refused.
#[derive(Clone, Copy, Debug, PartialEq, Eq, Structural)]
pub enum StoreError {
    /// The key was empty, too long, or used a character outside the set.
    BadKey,
    /// The value was too large, or there are too many keys.
    TooFull,
    /// The store itself could not be written.
    Unwritable,
    /// The card is too nearly full.
    NoRoom,
    /// There is nothing there to read.
    Missing,
}

/// Where an application stands relative to the panel.
#[derive(Clone, Copy, Debug, PartialEq, Eq, Structural)]
pub enum Lifecycle {
    /// This application owns the panel.
    Foreground,
    /// Something else owns the panel.
    Background,
}

impl StoreError {
    pub open spec fn tag(self) -> u8 {
        match self {
            StoreError::BadKey => 1,
            StoreError::TooFull => 2,
            StoreError::Unwritable => 3,
            StoreError::NoRoom => 4,
            StoreError::Missing => 5,
        }
    }

    /// What a tag means.
    pub open spec fn of_tag(tag: u8) -> Result<StoreError, ProtocolError> {
        if tag == 1 {
            Ok(StoreError::BadKey)
        } else if tag == 2 {
            Ok(StoreError::TooFull)
        } else if tag == 3 {
            Ok(StoreError::Unwritable)
        } else if tag == 4 {
            Ok(StoreError::NoRoom)
        } else if tag == 5 {
            Ok(StoreError::Missing)
        } else {
            Err(ProtocolError::InvalidValue("store error"))
        }
    }

    pub fn to_tag(self) -> (tag: u8)
        ensures
            tag == self.tag(),
    {
        match self {
            StoreError::BadKey => 1,
            StoreError::TooFull => 2,
            StoreError::Unwritable => 3,
            StoreError::NoRoom => 4,
            StoreError::Missing => 5,
        }
    }

    pub fn from_tag(tag: u8) -> (result: Result<StoreError, ProtocolError>)
        ensures
            result == Self::of_tag(tag),
    {
        match tag {
            1 => Ok(StoreError::BadKey),
            2 => Ok(StoreError::TooFull),
            3 => Ok(StoreError::Unwritable),
            4 => Ok(StoreError::NoRoom),
            5 => Ok(StoreError::Missing),
            _ => Err(ProtocolError::InvalidValue("store error")),
        }
    }

    /// The sentence for a reader.
    pub open spec fn sentence(self) -> Seq<char> {
        match self {
            StoreError::BadKey => "that is not a usable key"@,
            StoreError::TooFull => "there is no room for that"@,
            StoreError::Unwritable => "the store could not be written"@,
            StoreError::NoRoom => "the card is too nearly full to write that"@,
            StoreError::Missing => "there is nothing there to read"@,
        }
    }

    /// The sentence for a reader.
    pub fn to_string(self) -> (text: String)
        ensures
            text@ == self.sentence(),
    {
        let words = match self {
            StoreError::BadKey => "that is not a usable key",
            StoreError::TooFull => "there is no room for that",
            StoreError::Unwritable => "the store could not be written",
            StoreError::NoRoom => "the card is too nearly full to write that",
            StoreError::Missing => "there is nothing there to read",
        };
        words.to_owned()
    }
}

impl TryFrom<u8> for StoreError {
    type Error = ProtocolError;

    fn try_from(tag: u8) -> (result: Result<StoreError, ProtocolError>) {
        StoreError::from_tag(tag)
    }
}

impl vstd::std_specs::convert::TryFromSpecImpl<u8> for StoreError {
    open spec fn obeys_try_from_spec() -> bool {
        true
    }

    open spec fn try_from_spec(tag: u8) -> Result<StoreError, ProtocolError> {
        StoreError::of_tag(tag)
    }
}

/// Whether a key names something in an application's own store: a handful of
/// characters that cannot spell a path, and nothing hidden.
pub open spec fn key_ok(key: Seq<char>) -> bool {
    &&& 0 < wire::utf8_len(key) <= MAX_STORE_KEY_LEN
    &&& key[0] != '.'
    &&& text::is_drawn_from(key, Alphabet::Key)
}

/// Whether a key is usable.
pub fn is_valid_key(key: &str) -> (valid: bool)
    ensures
        valid == key_ok(key@),
{
    let length: usize = byte_len(key);
    if length == 0 || length > MAX_STORE_KEY_LEN {
        return false;
    }
    proof {
        wire::lemma_nonempty(key@);
    }
    key.get_char(0) != '.' && drawn_from(key, Alphabet::Key)
}

/// Whether the runtime may throw away what is kept under a key.
pub fn is_cache_key(key: &str) -> (cache: bool)
    ensures
        cache == text::has_prefix(key@, CACHE_PREFIX@),
{
    begins_with(key, CACHE_PREFIX)
}

} // verus!
