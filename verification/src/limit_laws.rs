//! The bounds that both sides of the wire keep to, and how they go together.

use vstd::prelude::*;

use crate::limits;

verus! {

/// Whatever is within its own bound is within that of a frame: a whole picture, a
/// piece of one, a font, a stored value, a piece of a blob, the result of a task,
/// a body and any label.
pub proof fn law_bounds_lie_within_a_frame()
    ensures
        limits::MAX_INLINE_PICTURE_BYTES + 13 <= limits::MAX_FRAME_LEN,
        limits::MAX_PICTURE_CHUNK_BYTES + 8 <= limits::MAX_FRAME_LEN,
        limits::MAX_PICTURE_CHUNK_BYTES <= limits::MAX_INLINE_PICTURE_BYTES,
        limits::MAX_INLINE_PICTURE_BYTES <= limits::MAX_PICTURE_BYTES,
        limits::MAX_FONT_BYTES + limits::MAX_STRING_LEN + 6 <= limits::MAX_FRAME_LEN,
        limits::MAX_STORE_VALUE + limits::MAX_STRING_LEN + 7 <= limits::MAX_FRAME_LEN,
        limits::MAX_SHELF_CHUNK + limits::MAX_STRING_LEN + 12 <= limits::MAX_FRAME_LEN,
        limits::MAX_TASK_BYTES + 9 <= limits::MAX_FRAME_LEN,
        limits::MAX_POST_BODY_LEN == limits::MAX_TASK_BYTES,
        limits::MAX_TASK_BYTES_U32 == limits::MAX_TASK_BYTES,
        limits::MAX_LISTED_KEYS == limits::MAX_STORE_KEYS + limits::MAX_CACHE_KEYS,
        limits::MAX_URL_LEN <= limits::MAX_STRING_LEN,
        limits::MAX_SHELF_CHUNK <= limits::MAX_SHELF_BYTES,
{
}

/// How large a frame, a picture, a font and a text may be.
pub proof fn law_sizes()
    ensures
        limits::VERSION == 12,
        limits::HEADER_LEN == 14,
        limits::MAX_FRAME_LEN == 8_388_608,
        limits::MAX_PICTURE_BYTES == 6_370_560,
        limits::MAX_INLINE_PICTURE_BYTES == 786_432,
        limits::MAX_PICTURE_CHUNK_BYTES == 262_144,
        limits::MAX_FONT_BYTES == 2_097_152,
        limits::MAX_STRING_LEN == 16_384,
        limits::MAX_URL_LEN == 2_048,
        limits::MAX_TASK_BYTES == 4_194_304,
        limits::MAX_STORE_VALUE == 262_144,
        limits::MAX_SHELF_CHUNK == 262_144,
        limits::MAX_SHELF_BYTES == 268_435_456,
        limits::SHELF_RESERVE == 67_108_864,
        limits::MAX_SHELL_CHUNK == 4_096,
        limits::MAX_RADIO_NAME == 96,
        limits::MAX_STORE_KEY_LEN == 64,
        limits::MAX_APP_ID_LEN == 32,
        limits::MAX_APP_VERSION_LEN == 64,
        limits::MAX_LOOKUP_WORD_BYTES == 128,
        limits::MAX_DICTIONARY_DEFINITION_BYTES == 4_096,
        limits::MAX_HEADER_NAME == 64,
        limits::MAX_HEADER_VALUE == 256,
        limits::ROW_LEAD_LEN == 15,
        limits::CACHE_PREFIX@ == "cache."@,
{
}

/// How many of anything there may be.
pub proof fn law_counts()
    ensures
        limits::MAX_NODES == 512,
        limits::MAX_DEPTH == 16,
        limits::NAV_SELECTION_NONE == 255,
        limits::MAX_RADIO_DEVICES == 32,
        limits::MAX_APP_CATALOG_ENTRIES == 128,
        limits::MAX_APP_CAPABILITIES == 16,
        limits::MAX_APP_LINK_EXPIRES_IN == 600,
        limits::MAX_APP_LINK_BROWSERS == 8,
        limits::MAX_STORE_KEYS == 256,
        limits::MAX_CACHE_KEYS == 64,
        limits::MAX_SHELF_BLOBS == 4_096,
        limits::MAX_DICTIONARY_ENTRIES == 8,
        limits::MAX_HEADERS == 8,
        limits::MAX_BAR_ACTIONS == 2,
        limits::MIN_NAV_DESTINATIONS == 2,
        limits::MAX_TERMINAL_COLUMNS == 160,
        limits::MAX_TERMINAL_ROWS == 64,
        limits::MAX_TEXT_LINKS == 32,
        limits::MAX_RICH_TEXT_SPANS == 256,
        limits::MAX_INLINE_FORMULAE == 32,
        limits::MAX_QUOTE_DEPTH == 6,
        limits::MAX_CHIPS == 24,
        limits::MAX_TABS == 4,
        limits::MAX_FACTS == 24,
        limits::MAX_BAND_SLOTS == 3,
        limits::MAX_COLUMNS == 12,
        limits::MAX_CELLS == 128,
        limits::MAX_ROWS == 64,
        limits::MAX_CHOICE_OPTIONS == 12,
        limits::RESERVED_ACTION == u32::MAX,
{
}

} // verus!
