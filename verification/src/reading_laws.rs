//! What is read was written: whatever reading makes of bytes, writing it gives
//! those bytes again, so that nothing has two spellings and what cannot be
//! written cannot be read.

use vstd::prelude::*;
use vstd::utf8::*;

use crate::blob;
use crate::device_request;
use crate::device_result;
use crate::error::ProtocolError;
use crate::glyph;
use crate::glyph::Glyph;
use crate::item;
use crate::item::Wire;
use crate::leaf;
use crate::message_codec;
use crate::parts;
use crate::prose;
use crate::shell_codec;
use crate::store_codec;
use crate::task::{Header, TaskModel};
use crate::task_codec;
use crate::ui::NodeId;
use crate::wire;

verus! {

/// Whether bytes begin with a spelling and go on with the rest.
pub open spec fn spelled(s: Seq<u8>, spelling: Seq<u8>, rest: Seq<u8>) -> bool {
    s == spelling + rest
}

// ---------------------------------------------------------------------------
// Numbers and texts.

/// A byte is read wherever there is one.
pub broadcast proof fn law_bytes_are_read_as_they_are(s: Seq<u8>)
    ensures
        (#[trigger] wire::parse_u8(s)) is Ok <==> s.len() >= 1,
        wire::parse_u8(s) is Err ==> wire::parse_u8(s)->Err_0 == ProtocolError::Truncated,
        wire::parse_u8(s) matches Ok((value, rest)) ==> spelled(s, seq![value], rest),
{
    reveal(wire::parse_u8);
    if s.len() >= 1 {
        assert(s =~= seq![s[0]] + s.skip(1));
    }
}

/// Two bytes are read as the number that is written as these bytes.
pub broadcast proof fn law_half_words_are_read_as_written(s: Seq<u8>)
    ensures
        (#[trigger] wire::parse_u16(s)) is Ok <==> s.len() >= 2,
        wire::parse_u16(s) is Err ==> wire::parse_u16(s)->Err_0 == ProtocolError::Truncated,
        wire::parse_u16(s) matches Ok((value, rest)) ==> spelled(s, wire::be16(value), rest),
{
    reveal(wire::parse_u16);
    reveal(wire::be16);
    if s.len() >= 2 {
        let value = (s[0] * 0x100 + s[1]) as u16;
        assert(value / 256 == s[0] && value % 256 == s[1]);
        assert(s =~= wire::be16(value) + s.skip(2));
    }
}

/// Four bytes are read as the number that is written as these bytes.
pub broadcast proof fn law_words_are_read_as_written(s: Seq<u8>)
    ensures
        (#[trigger] wire::parse_u32(s)) is Ok <==> s.len() >= 4,
        wire::parse_u32(s) is Err ==> wire::parse_u32(s)->Err_0 == ProtocolError::Truncated,
        wire::parse_u32(s) matches Ok((value, rest)) ==> spelled(s, wire::be32(value), rest),
{
    reveal(wire::parse_u32);
    reveal(wire::be32);
    reveal(wire::be16);
    if s.len() >= 4 {
        let value = (s[0] * 0x100_0000 + s[1] * 0x1_0000 + s[2] * 0x100 + s[3]) as u32;
        let high = (value / 0x1_0000) as u16;
        let low = (value % 0x1_0000) as u16;
        assert(high == s[0] * 0x100 + s[1] && low == s[2] * 0x100 + s[3]);
        assert(high / 256 == s[0] && high % 256 == s[1]);
        assert(low / 256 == s[2] && low % 256 == s[3]);
        assert(s =~= wire::be32(value) + s.skip(4));
    }
}

/// Eight bytes are read as the number that is written as these bytes.
pub broadcast proof fn law_long_words_are_read_as_written(s: Seq<u8>)
    ensures
        (#[trigger] wire::parse_u64(s)) is Ok <==> s.len() >= 8,
        wire::parse_u64(s) is Err ==> wire::parse_u64(s)->Err_0 == ProtocolError::Truncated,
        wire::parse_u64(s) matches Ok((value, rest)) ==> spelled(s, wire::be64(value), rest),
{
    reveal(wire::parse_u64);
    reveal(wire::be64);
    if s.len() >= 8 {
        let high = s[0] * 0x100_0000 + s[1] * 0x1_0000 + s[2] * 0x100 + s[3];
        let low = s[4] * 0x100_0000 + s[5] * 0x1_0000 + s[6] * 0x100 + s[7];
        let value = (high * 0x1_0000_0000 + low) as u64;
        assert(0 <= low < 0x1_0000_0000 && 0 <= high < 0x1_0000_0000);
        assert((value / 0x1_0000_0000) as u32 == high && (value % 0x1_0000_0000) as u32 == low);
        let front = s.take(4);
        let back = s.skip(4);
        law_words_are_read_as_written(front);
        law_words_are_read_as_written(back);
        reveal(wire::parse_u32);
        assert(wire::parse_u32(front)->Ok_0.0 == high as u32);
        assert(wire::parse_u32(back)->Ok_0.0 == low as u32);
        assert(front =~= wire::be32(high as u32) + front.skip(4));
        assert(front.skip(4) =~= Seq::empty());
        assert(front =~= wire::be32(high as u32));
        assert(s =~= front + back);
        assert(back.skip(4) =~= s.skip(8));
        assert(s =~= wire::be64(value) + s.skip(8));
    }
}

/// A yes is one and a no is zero; any other byte is neither, and says what it was
/// taken for.
pub broadcast proof fn law_only_zero_and_one_are_flags(s: Seq<u8>, name: &'static str)
    ensures
        (#[trigger] wire::parse_flag(s, name)) is Ok <==> s.len() >= 1 && s[0] <= 1,
        s.len() >= 1 && s[0] > 1 ==> wire::parse_flag(s, name)->Err_0
            == ProtocolError::InvalidValue(name),
        wire::parse_flag(s, name) matches Ok((flag, rest)) ==> flag == (s[0] == 1) && spelled(
            s,
            seq![wire::flag_byte(flag)],
            rest,
        ),
{
    reveal(wire::parse_u8);
    law_bytes_are_read_as_they_are(s);
}

/// As many bytes are read as were asked for, and they are the first ones.
pub broadcast proof fn law_first_bytes_are_read(s: Seq<u8>, count: int)
    requires
        count >= 0,
    ensures
        (#[trigger] wire::parse_bytes(s, count)) is Ok <==> s.len() >= count,
        wire::parse_bytes(s, count) matches Ok((bytes, rest)) ==> bytes.len() == count && spelled(
            s,
            bytes,
            rest,
        ),
{
    reveal(wire::parse_bytes);
    if s.len() >= count {
        assert(s =~= s.take(count) + s.skip(count));
    }
}

/// A label is read from its length and its letters, and is no longer than a label
/// may be.
pub broadcast proof fn law_labels_are_read_as_written(s: Seq<u8>)
    ensures
        (#[trigger] wire::parse_text(s)) matches Ok((text, rest)) ==> wire::utf8_len(text) <= 16_384
            && spelled(s, wire::text_bytes(text), rest),
{
    reveal(wire::parse_text);
    reveal(wire::text_bytes);
    broadcast use {law_half_words_are_read_as_written, law_first_bytes_are_read};
    broadcast use wire::lemma_concat_to_the_right;

    if wire::parse_text(s) is Ok {
        let (count, after) = wire::parse_u16(s)->Ok_0;
        let (bytes, rest) = wire::parse_bytes(after, count as int)->Ok_0;
        decode_utf8_encode_utf8(bytes);
    }
}

/// A body is read from its length and its letters, and is no longer than a body
/// may be.
pub broadcast proof fn law_bodies_are_read_as_written(s: Seq<u8>)
    ensures
        (#[trigger] wire::parse_body(s)) matches Ok((text, rest)) ==> wire::body_fits(text)
            && spelled(s, wire::body_bytes(text), rest),
{
    reveal(wire::parse_body);
    reveal(wire::body_bytes);
    broadcast use {law_words_are_read_as_written, law_first_bytes_are_read};
    broadcast use wire::lemma_concat_to_the_right;

    if wire::parse_body(s) is Ok {
        let (count, after) = wire::parse_u32(s)->Ok_0;
        let (bytes, rest) = wire::parse_bytes(after, count as int)->Ok_0;
        decode_utf8_encode_utf8(bytes);
    }
}

/// What reading every part back needs.
pub broadcast group group_read_as_written {
    law_bytes_are_read_as_they_are,
    law_half_words_are_read_as_written,
    law_words_are_read_as_written,
    law_long_words_are_read_as_written,
    law_only_zero_and_one_are_flags,
    law_first_bytes_are_read,
    law_labels_are_read_as_written,
    law_bodies_are_read_as_written,
}

/// Values are read from their bytes and are no more of them than they may be.
pub broadcast proof fn law_values_are_read_as_written(s: Seq<u8>, limit: int)
    ensures
        (#[trigger] blob::parse_blob(s, limit)) matches Ok((bytes, rest)) ==> bytes.len() <= limit
            && spelled(s, blob::blob_bytes(bytes), rest),
{
    broadcast use {group_read_as_written, wire::lemma_concat_to_the_right};

}

/// What a terminal is given or says is read from its bytes.
pub broadcast proof fn law_chunks_are_read_as_written(s: Seq<u8>)
    ensures
        (#[trigger] shell_codec::parse_chunk(s)) matches Ok((bytes, rest)) ==> bytes.len() <= 4096
            && spelled(s, shell_codec::chunk_bytes(bytes), rest),
{
    broadcast use {group_read_as_written, wire::lemma_concat_to_the_right};

}

/// A run of parts is read as written where each of them is.
pub proof fn lemma_runs_are_read_as_written<T: Wire>(s: Seq<u8>, count: nat)
    requires
        forall|s: Seq<u8>| #[trigger]
            T::parse(s) matches Ok((model, rest)) ==> spelled(s, T::bytes(model), rest),
    ensures
        item::parse_all::<T>(s, count) matches Ok((list, rest)) ==> list.len() == count && spelled(
            s,
            item::bytes_of_all::<T>(list),
            rest,
        ),
    decreases count,
{
    broadcast use {wire::lemma_concat_to_the_right, wire::lemma_nothing_concat};

    if count > 0 && item::parse_all::<T>(s, count) is Ok {
        let (first, after) = T::parse(s)->Ok_0;
        lemma_runs_are_read_as_written::<T>(after, (count - 1) as nat);
        let (later, rest) = item::parse_all::<T>(after, (count - 1) as nat)->Ok_0;
        let list = seq![first] + later;
        assert(list.drop_first() =~= later);
        assert(list[0] == first);
    }
}

// ---------------------------------------------------------------------------
// Small choices.

/// A small choice is read from its own byte alone.
pub proof fn law_small_choices_are_read_as_written(s: Seq<u8>, name: &'static str, id: NodeId)
    ensures
        message_codec::parse_scale_tag(s) matches Ok((scale, rest)) ==> spelled(
            s,
            seq![message_codec::scale_tag(scale)],
            rest,
        ),
        message_codec::parse_format(s) matches Ok((format, rest)) ==> spelled(
            s,
            seq![message_codec::format_tag(format)],
            rest,
        ),
        message_codec::parse_lifecycle(s) matches Ok((state, rest)) ==> spelled(
            s,
            seq![message_codec::lifecycle_tag(state)],
            rest,
        ),
        leaf::parse_shape(s) matches Ok((shape, rest)) ==> spelled(
            s,
            seq![leaf::shape_tag(shape)],
            rest,
        ),
        leaf::parse_level(s) matches Ok((level, rest)) ==> spelled(
            s,
            seq![leaf::level_tag(level)],
            rest,
        ),
        leaf::parse_spacer(id, s) matches Ok((node, rest)) ==> node is Spacer && spelled(
            s,
            seq![leaf::space_tag(node->space)],
            rest,
        ),
        parts::parse_row_state(s) matches Ok((state, rest)) ==> spelled(
            s,
            seq![parts::row_state_tag(state)],
            rest,
        ),
        parts::parse_tile_state(s) matches Ok((state, rest)) ==> spelled(
            s,
            seq![parts::tile_state_tag(state)],
            rest,
        ),
        parts::parse_control(s, name) matches Ok((state, rest)) ==> spelled(
            s,
            seq![parts::control_tag(state)],
            rest,
        ),
        prose::parse_alignment(s) matches Ok((alignment, rest)) ==> spelled(
            s,
            seq![prose::alignment_tag(alignment)],
            rest,
        ),
{
    law_bytes_are_read_as_they_are(s);
}

/// A mark is read from its own byte alone.
pub proof fn law_marks_are_read_as_written(s: Seq<u8>, name: &'static str)
    ensures
        parts::parse_glyph(s, name) is Ok <==> s.len() >= 1 && s[0] <= 44,
        parts::parse_glyph(s, name) matches Ok((mark, rest)) ==> spelled(
            s,
            seq![glyph::glyph_tag(mark)],
            rest,
        ),
{
    reveal(wire::parse_u8);
    law_bytes_are_read_as_they_are(s);
    assert(glyph::glyph_tag(Glyph::App) == 0);
    assert(glyph::glyph_tag(Glyph::Book) == 1);
    assert(glyph::glyph_tag(Glyph::Note) == 2);
    assert(glyph::glyph_tag(Glyph::Clock) == 3);
    assert(glyph::glyph_tag(Glyph::Settings) == 4);
    assert(glyph::glyph_tag(Glyph::Folder) == 5);
    assert(glyph::glyph_tag(Glyph::Chart) == 6);
    assert(glyph::glyph_tag(Glyph::Search) == 7);
    assert(glyph::glyph_tag(Glyph::Wifi) == 8);
    assert(glyph::glyph_tag(Glyph::Battery) == 9);
    assert(glyph::glyph_tag(Glyph::Reader) == 10);
    assert(glyph::glyph_tag(Glyph::Power) == 11);
    assert(glyph::glyph_tag(Glyph::Grid) == 12);
    assert(glyph::glyph_tag(Glyph::Circle) == 13);
    assert(glyph::glyph_tag(Glyph::Check) == 14);
    assert(glyph::glyph_tag(Glyph::Terminal) == 15);
    assert(glyph::glyph_tag(Glyph::Chat) == 16);
    assert(glyph::glyph_tag(Glyph::News) == 17);
    assert(glyph::glyph_tag(Glyph::Rss) == 18);
    assert(glyph::glyph_tag(Glyph::Light) == 19);
    assert(glyph::glyph_tag(Glyph::Close) == 20);
    assert(glyph::glyph_tag(Glyph::Download) == 21);
    assert(glyph::glyph_tag(Glyph::Bookmark) == 22);
    assert(glyph::glyph_tag(Glyph::Filter) == 23);
    assert(glyph::glyph_tag(Glyph::Person) == 24);
    assert(glyph::glyph_tag(Glyph::Tag) == 25);
    assert(glyph::glyph_tag(Glyph::Globe) == 26);
    assert(glyph::glyph_tag(Glyph::Refresh) == 27);
    assert(glyph::glyph_tag(Glyph::More) == 28);
    assert(glyph::glyph_tag(Glyph::Bluetooth) == 29);
    assert(glyph::glyph_tag(Glyph::Key) == 30);
    assert(glyph::glyph_tag(Glyph::Magnet) == 31);
    assert(glyph::glyph_tag(Glyph::Play) == 32);
    assert(glyph::glyph_tag(Glyph::Pause) == 33);
    assert(glyph::glyph_tag(Glyph::Rewind30) == 34);
    assert(glyph::glyph_tag(Glyph::Forward30) == 35);
    assert(glyph::glyph_tag(Glyph::VolumeDown) == 36);
    assert(glyph::glyph_tag(Glyph::VolumeUp) == 37);
    assert(glyph::glyph_tag(Glyph::MoreVertical) == 38);
    assert(glyph::glyph_tag(Glyph::Trash) == 39);
    assert(glyph::glyph_tag(Glyph::Previous) == 40);
    assert(glyph::glyph_tag(Glyph::Next) == 41);
    assert(glyph::glyph_tag(Glyph::Plus) == 42);
    assert(glyph::glyph_tag(Glyph::Headphones) == 43);
    assert(glyph::glyph_tag(Glyph::Minus) == 44);
}

/// A byte that no choice is written as is refused, and the refusal says what it
/// was taken for.
pub proof fn law_other_bytes_are_no_choice(s: Seq<u8>, name: &'static str, id: NodeId)
    requires
        s.len() >= 1,
    ensures
        s[0] > 2 ==> message_codec::parse_scale_tag(s)->Err_0 == ProtocolError::InvalidValue(
            "text scale",
        ),
        s[0] > 1 ==> message_codec::parse_format(s)->Err_0 == ProtocolError::InvalidValue(
            "picture format",
        ),
        s[0] > 1 ==> message_codec::parse_lifecycle(s)->Err_0 == ProtocolError::InvalidValue(
            "lifecycle state",
        ),
        s[0] > 1 ==> leaf::parse_shape(s)->Err_0 == ProtocolError::InvalidValue("tile shape"),
        s[0] > 1 ==> leaf::parse_level(s)->Err_0 == ProtocolError::InvalidValue("banner level"),
        s[0] > 3 ==> leaf::parse_spacer(id, s)->Err_0 == ProtocolError::InvalidValue(
            "spacer scale",
        ),
        s[0] > 1 ==> parts::parse_row_state(s)->Err_0 == ProtocolError::InvalidValue("row state"),
        s[0] > 3 ==> parts::parse_tile_state(s)->Err_0 == ProtocolError::InvalidValue(
            "tile state",
        ),
        s[0] > 1 ==> parts::parse_control(s, name)->Err_0 == ProtocolError::InvalidValue(name),
        s[0] > 44 ==> parts::parse_glyph(s, name)->Err_0 == ProtocolError::InvalidValue(name),
        s[0] > 3 ==> prose::parse_alignment(s)->Err_0 == ProtocolError::InvalidValue(
            "paragraph alignment",
        ),
        s[0] > 7 ==> store_codec::parse_request(s)->Err_0 == ProtocolError::InvalidValue(
            "store request",
        ),
        s[0] > 8 ==> store_codec::parse_result(s)->Err_0 == ProtocolError::InvalidValue(
            "store result",
        ),
        s[0] > 3 ==> shell_codec::parse_shell_request(s)->Err_0 == ProtocolError::InvalidValue(
            "shell request",
        ),
        s[0] > 3 ==> shell_codec::parse_shell_event(s)->Err_0 == ProtocolError::InvalidValue(
            "shell event",
        ),
        s[0] > 4 ==> task_codec::parse_task(s)->Err_0 == ProtocolError::InvalidValue("task kind"),
        s[0] > 2 ==> task_codec::parse_outcome(s)->Err_0 == ProtocolError::InvalidValue(
            "task outcome",
        ),
        s[0] == 0 || s[0] > 41 ==> device_request::parse_device_request(s)->Err_0
            == ProtocolError::InvalidValue("device request"),
        s[0] == 0 || s[0] > 15 ==> device_result::parse_device_result(s)->Err_0
            == ProtocolError::InvalidValue("device result"),
{
    reveal(wire::parse_u8);
    reveal(device_result::parse_device_result);
    law_bytes_are_read_as_they_are(s);
}

// ---------------------------------------------------------------------------
// Records.

/// A store request is read from the bytes that it is written as.
pub proof fn law_store_requests_are_read_as_written(s: Seq<u8>)
    ensures
        store_codec::parse_request(s) matches Ok((request, rest)) ==> spelled(
            s,
            store_codec::request_bytes(request),
            rest,
        ),
{
    reveal(store_codec::request_bytes);
    broadcast use {
        group_read_as_written,
        law_values_are_read_as_written,
        wire::lemma_concat_to_the_right,
    };

}

/// A store result is read from the bytes that it is written as.
pub proof fn law_store_results_are_read_as_written(s: Seq<u8>)
    ensures
        store_codec::parse_result(s) matches Ok((result, rest)) ==> spelled(
            s,
            store_codec::result_bytes(result),
            rest,
        ),
{
    reveal(store_codec::result_bytes);
    broadcast use {
        group_read_as_written,
        law_values_are_read_as_written,
        wire::lemma_concat_to_the_right,
    };

    if store_codec::parse_result(s) is Ok {
        let after = wire::parse_u8(s)->Ok_0.1;
        if wire::parse_u16(after) is Ok {
            let (count, listed) = wire::parse_u16(after)->Ok_0;
            lemma_runs_are_read_as_written::<String>(listed, count as nat);
            lemma_runs_are_read_as_written::<(String, u32)>(listed, count as nat);
        }
    }
}

/// A shell request is read from the bytes that it is written as.
pub proof fn law_shell_requests_are_read_as_written(s: Seq<u8>)
    ensures
        shell_codec::parse_shell_request(s) matches Ok((request, rest)) ==> spelled(
            s,
            shell_codec::shell_request_bytes(request),
            rest,
        ),
{
    broadcast use {
        group_read_as_written,
        law_chunks_are_read_as_written,
        wire::lemma_concat_to_the_right,
    };

}

/// A shell event is read from the bytes that it is written as.
pub proof fn law_shell_events_are_read_as_written(s: Seq<u8>)
    ensures
        shell_codec::parse_shell_event(s) matches Ok((event, rest)) ==> spelled(
            s,
            shell_codec::shell_event_bytes(event),
            rest,
        ),
{
    broadcast use {
        group_read_as_written,
        law_chunks_are_read_as_written,
        wire::lemma_concat_to_the_right,
    };

}

/// The outcome of a task is read from the bytes that it is written as.
pub proof fn law_outcomes_are_read_as_written(s: Seq<u8>)
    ensures
        task_codec::parse_outcome(s) matches Ok((outcome, rest)) ==> spelled(
            s,
            task_codec::outcome_bytes(outcome),
            rest,
        ),
{
    broadcast use {
        group_read_as_written,
        law_values_are_read_as_written,
        wire::lemma_concat_to_the_right,
    };

}

/// A credential is read from the bytes that it is written as, and only where it
/// is one that can be used.
pub proof fn law_credentials_are_read_as_written(s: Seq<u8>)
    ensures
        task_codec::parse_credential(s) matches Ok((credential, rest)) ==> {
            &&& spelled(s, task_codec::credential_bytes(credential), rest)
            &&& credential matches Some(inner) ==> crate::task::credential_ok(inner)
        },
{
    reveal(task_codec::parse_credential);
    reveal(task_codec::credential_bytes);
    broadcast use {group_read_as_written, wire::lemma_concat_to_the_right};

}

/// The headers of a request are read from the bytes that they are written as, up
/// to as many as a request may have.
pub proof fn law_headers_are_read_as_written(s: Seq<u8>)
    ensures
        task_codec::parse_headers(s) matches Ok((headers, rest)) ==> headers.len() <= 8 && spelled(
            s,
            seq![headers.len() as u8] + item::bytes_of_all::<Header>(headers),
            rest,
        ),
{
    broadcast use {group_read_as_written, wire::lemma_concat_to_the_right};

    if task_codec::parse_headers(s) is Ok {
        let (count, after) = wire::parse_u8(s)->Ok_0;
        lemma_runs_are_read_as_written::<Header>(after, count as nat);
    }
}

proof fn lemma_numbered_requests(tag: u8, s: Seq<u8>)
    requires
        device_request::takes_number(tag),
    ensures
        wire::parse_u32(s) matches Ok((number, rest)) ==> (device_request::numbered_request(
            tag,
            number,
        ) matches Ok(request) ==> spelled(
            seq![tag] + s,
            device_request::device_request_bytes(request),
            rest,
        )),
{
    reveal(device_request::device_request_bytes);
    law_words_are_read_as_written(s);
    if wire::parse_u32(s) is Ok {
        let (number, rest) = wire::parse_u32(s)->Ok_0;
        wire::lemma_concat_to_the_right(seq![tag], wire::be32(number), rest);
    }
}

proof fn lemma_joined_requests(s: Seq<u8>)
    ensures
        device_request::parse_join(s) matches Ok((request, rest)) ==> spelled(
            seq![20u8] + s,
            device_request::device_request_bytes(request),
            rest,
        ),
        device_request::parse_load_audio(s) matches Ok((request, rest)) ==> spelled(
            seq![23u8] + s,
            device_request::device_request_bytes(request),
            rest,
        ),
        device_request::parse_update(s) matches Ok((request, rest)) ==> spelled(
            seq![31u8] + s,
            device_request::device_request_bytes(request),
            rest,
        ),
        device_request::parse_lookup(s) matches Ok((request, rest)) ==> spelled(
            seq![37u8] + s,
            device_request::device_request_bytes(request),
            rest,
        ),
{
    reveal(device_request::device_request_bytes);
    broadcast use {
        law_bytes_are_read_as_they_are,
        law_labels_are_read_as_written,
        wire::lemma_concat_to_the_right,
    };

}

proof fn lemma_worded_requests(tag: u8, s: Seq<u8>)
    ensures
        device_request::parse_worded_request(tag, s) matches Ok((request, rest)) ==> spelled(
            seq![tag] + s,
            device_request::device_request_bytes(request),
            rest,
        ),
{
    if tag == 20 || tag == 23 || tag == 31 || tag == 37 {
        lemma_joined_requests(s);
    } else {
        reveal(device_request::device_request_bytes);
        broadcast use {
            law_bytes_are_read_as_they_are,
            law_only_zero_and_one_are_flags,
            law_labels_are_read_as_written,
            wire::lemma_concat_to_the_right,
        };

    }
}

/// A device request is read from the bytes that it is written as.
pub proof fn law_device_requests_are_read_as_written(s: Seq<u8>)
    ensures
        device_request::parse_device_request(s) matches Ok((request, rest)) ==> spelled(
            s,
            device_request::device_request_bytes(request),
            rest,
        ),
{
    law_bytes_are_read_as_they_are(s);
    if wire::parse_u8(s) is Ok {
        let (tag, after) = wire::parse_u8(s)->Ok_0;
        if device_request::plain_request(tag) is Some {
            reveal(device_request::device_request_bytes);
        } else if device_request::takes_number(tag) {
            lemma_numbered_requests(tag, after);
        } else {
            lemma_worded_requests(tag, after);
        }
    }
}

/// A device request that is read is one that could be sent.
pub proof fn law_read_device_requests_can_be_sent(s: Seq<u8>)
    ensures
        device_request::parse_device_request(s) matches Ok((request, rest))
            ==> device_request::device_request_refusal(request) is None,
{
    reveal(device_request::device_request_refusal);
}

/// Work is read from the bytes that it is written as, and then asks for no more
/// than it may.
pub proof fn law_work_is_read_as_written(s: Seq<u8>)
    ensures
        task_codec::parse_task(s) matches Ok((work, rest)) ==> exists|written: TaskModel|
            task_codec::clipped(written) == work && spelled(
                s,
                #[trigger] task_codec::task_bytes(written),
                rest,
            ),
{
    reveal(task_codec::task_bytes);
    broadcast use {
        law_bytes_are_read_as_they_are,
        law_words_are_read_as_written,
        law_labels_are_read_as_written,
        law_bodies_are_read_as_written,
        wire::lemma_concat_to_the_right,
    };

    if task_codec::parse_task(s) is Ok {
        let (work, rest) = task_codec::parse_task(s)->Ok_0;
        let (tag, after) = wire::parse_u8(s)->Ok_0;
        if tag == 0 {
            let (url, after) = task_codec::parse_url(after)->Ok_0;
            let (offset, after) = wire::parse_u32(after)->Ok_0;
            let (wanted, after) = wire::parse_u32(after)->Ok_0;
            law_credentials_are_read_as_written(after);
            let (credential, after) = task_codec::parse_credential(after)->Ok_0;
            law_headers_are_read_as_written(after);
            let (headers, after) = task_codec::parse_headers(after)->Ok_0;
            let written = TaskModel::Fetch { url, offset, max_bytes: wanted, credential, headers };
            assert(task_codec::clipped(written) == work);
            assert(spelled(s, task_codec::task_bytes(written), rest));
        } else if tag == 3 {
            let (url, after) = task_codec::parse_url(after)->Ok_0;
            let (body, after) = wire::parse_body(after)->Ok_0;
            let (content_type, after) = wire::parse_text(after)->Ok_0;
            law_credentials_are_read_as_written(after);
            let (credential, after) = task_codec::parse_credential(after)->Ok_0;
            law_headers_are_read_as_written(after);
            let (headers, after) = task_codec::parse_headers(after)->Ok_0;
            let (wanted, after) = wire::parse_u32(after)->Ok_0;
            let written = TaskModel::Post {
                url,
                body,
                content_type,
                credential,
                headers,
                max_bytes: wanted,
            };
            assert(task_codec::clipped(written) == work);
            assert(spelled(s, task_codec::task_bytes(written), rest));
        } else {
            assert(task_codec::clipped(work) == work);
            assert(spelled(s, task_codec::task_bytes(work), rest));
        }
    }
}

} // verus!
