//! Every bound of the format in one place.

use vstd::prelude::*;

verus! {

/// The first four bytes of every frame.
pub const MAGIC: [u8; 4] = [75u8, 79u8, 66u8, 79u8];

/// The wire version, refused rather than reinterpreted on a mismatch.
///
/// The byte exists so that a peer built for another layout of an existing tag
/// declines the frame instead of misreading it.
pub const VERSION: u8 = 12;

pub const HEADER_LEN: usize = 14;

/// The largest payload either side will read in one frame.
pub const MAX_FRAME_LEN: usize = 8 * 1_048_576;

/// The largest decoded picture accepted from one application: three bytes per
/// pixel across a 1264 by 1680 color panel.
pub const MAX_PICTURE_BYTES: usize = 3 * 1264 * 1680;

/// Largest picture sent as one `PutPicture` frame.
pub const MAX_INLINE_PICTURE_BYTES: usize = 768 * 1024;

/// Largest piece of a chunked upload.
pub const MAX_PICTURE_CHUNK_BYTES: usize = 256 * 1024;

/// Largest embedded outline font one application may hand to the runtime.
pub const MAX_FONT_BYTES: usize = 2 * 1024 * 1024;

pub const MAX_STRING_LEN: usize = 16_384;

pub const MAX_NODES: usize = 512;

/// The byte a nav bar sends when no destination is the current one.
pub const NAV_SELECTION_NONE: u8 = 255;

/// How deeply nodes may nest.
pub const MAX_DEPTH: usize = 16;

/// The longest a URL may be.
pub const MAX_URL_LEN: usize = 2048;

/// The most a single task may hand back in one frame.
pub const MAX_TASK_BYTES_U32: u32 = 4 * 1024 * 1024;

/// The same limit as [`MAX_TASK_BYTES_U32`], in the width Rust indexes with.
pub const MAX_TASK_BYTES: usize = 4 * 1024 * 1024;

/// The most an application may send in one request body.
pub const MAX_POST_BODY_LEN: usize = MAX_TASK_BYTES;

/// The most radios a device scan can report in one answer.
pub const MAX_RADIO_DEVICES: usize = 32;

/// The most applications a catalog may expose in one bounded reply.
pub const MAX_APP_CATALOG_ENTRIES: usize = 128;

/// Stable application identities are short enough to become filenames.
pub const MAX_APP_ID_LEN: usize = 32;

pub const MAX_APP_VERSION_LEN: usize = 64;

pub const MAX_APP_CAPABILITIES: usize = 16;

pub const MAX_APP_LINK_EXPIRES_IN: u32 = 10 * 60;

pub const MAX_APP_LINK_BROWSERS: u8 = 8;

/// Radio identifiers are drawn on one row and bounded more tightly than an
/// ordinary string.
pub const MAX_RADIO_NAME: usize = 96;

/// The longest a stored key may be.
pub const MAX_STORE_KEY_LEN: usize = 64;

/// The largest value an application may keep under one key.
pub const MAX_STORE_VALUE: usize = 256 * 1024;

/// The most keys one application may hold.
pub const MAX_STORE_KEYS: usize = 256;

/// The prefix that marks a key as one the runtime may throw away.
pub const CACHE_PREFIX: &'static str = "cache.";

/// How many cache keys one application may hold.
pub const MAX_CACHE_KEYS: usize = 64;

/// The most keys one listing may name: every durable key and every cache key.
pub const MAX_LISTED_KEYS: usize = MAX_STORE_KEYS + MAX_CACHE_KEYS;

/// The most bytes one shelf write or read may carry.
pub const MAX_SHELF_CHUNK: usize = 256 * 1024;

/// The most bytes one application may keep on the shelf.
pub const MAX_SHELF_BYTES: u64 = 256 * 1024 * 1024;

/// The most blobs one application may keep.
pub const MAX_SHELF_BLOBS: usize = 4_096;

pub const MAX_LOOKUP_WORD_BYTES: usize = 128;

pub const MAX_DICTIONARY_ENTRIES: usize = 8;

pub const MAX_DICTIONARY_DEFINITION_BYTES: usize = 4_096;

/// How much of the card must stay free whatever an application asks for.
pub const SHELF_RESERVE: u64 = 64 * 1024 * 1024;

/// The most headers one request may carry, beyond the ones the runtime sets.
pub const MAX_HEADERS: usize = 8;

/// The longest a header name may be.
pub const MAX_HEADER_NAME: usize = 64;

/// The longest a header value may be.
pub const MAX_HEADER_VALUE: usize = 256;

/// The most bytes carried in one direction of a terminal in a single message.
pub const MAX_SHELL_CHUNK: usize = 4096;

/// The fixed width of an encoded row lead.
pub const ROW_LEAD_LEN: usize = 15;

/// The most controls a top bar carries.
pub const MAX_BAR_ACTIONS: usize = 2;

/// A bar of one destination says nothing about where else the reader could go.
pub const MIN_NAV_DESTINATIONS: usize = 2;

pub const MAX_TERMINAL_COLUMNS: usize = 160;

pub const MAX_TERMINAL_ROWS: usize = 64;

pub const MAX_TEXT_LINKS: usize = 32;

pub const MAX_RICH_TEXT_SPANS: usize = 256;

pub const MAX_INLINE_FORMULAE: usize = 32;

pub const MAX_QUOTE_DEPTH: u8 = 6;

pub const MAX_CHIPS: usize = 24;

pub const MAX_TABS: usize = 4;

pub const MAX_FACTS: usize = 24;

/// A band is two or three columns beside each other.
pub const MAX_BAND_SLOTS: usize = 3;

pub const MAX_COLUMNS: u8 = 12;

pub const MAX_CELLS: usize = 128;

pub const MAX_ROWS: usize = 64;

pub const MAX_CHOICE_OPTIONS: usize = 12;

/// The action identifier that means going back.
pub const RESERVED_ACTION: u32 = 4_294_967_295;

} // verus!
