//! What is read of a message was written: all but a few have one spelling each.

use vstd::prelude::*;

use crate::error::ProtocolError;
use crate::message_codec;
use crate::reading_laws;
use crate::task_codec;
use crate::wire;

verus! {

/// Whether whatever message is read from bytes is of that kind and is written as
/// these bytes.
pub open spec fn read_as_written(kind: u8, s: Seq<u8>) -> bool {
    message_codec::parse_message(kind, s) matches Ok((message, rest)) ==> {
        &&& message_codec::message_kind(message) == kind
        &&& reading_laws::spelled(s, message_codec::message_bytes(message), rest)
    }
}

proof fn lemma_names_read_as_written(kind: u8, s: Seq<u8>)
    requires
        kind == 1 || kind == 12 || kind == 5,
    ensures
        read_as_written(kind, s),
{
    reveal(message_codec::parse_message);
    reveal(message_codec::message_bytes);
    broadcast use {
        reading_laws::group_read_as_written,
        wire::lemma_concat_to_the_right,
    };

}

proof fn lemma_welcomes_read_as_written(kind: u8, s: Seq<u8>)
    requires
        kind == 2,
    ensures
        read_as_written(kind, s),
{
    reveal(message_codec::parse_message);
    reveal(message_codec::message_bytes);
    broadcast use {
        reading_laws::group_read_as_written,
        wire::lemma_concat_to_the_right,
    };

}

proof fn lemma_numbers_read_as_written(kind: u8, s: Seq<u8>)
    requires
        kind == 4 || kind == 10 || kind == 19 || kind == 22 || kind == 25,
    ensures
        read_as_written(kind, s),
{
    reveal(message_codec::parse_message);
    reveal(message_codec::message_bytes);
    broadcast use {
        reading_laws::group_read_as_written,
        wire::lemma_concat_to_the_right,
    };

}

proof fn lemma_small_messages_read_as_written(kind: u8, s: Seq<u8>)
    requires
        kind == 6 || kind == 15 || kind == 23 || kind == 27,
    ensures
        read_as_written(kind, s),
{
    reveal(message_codec::parse_message);
    reveal(message_codec::message_bytes);
    broadcast use {
        reading_laws::group_read_as_written,
        wire::lemma_nothing_concat,
    };

}

proof fn lemma_records_read_as_written(kind: u8, s: Seq<u8>)
    requires
        kind == 7 || kind == 13 || kind == 14 || kind == 16 || kind == 17,
    ensures
        read_as_written(kind, s),
{
    reveal(message_codec::parse_message);
    reveal(message_codec::message_bytes);
    if kind == 7 {
        reading_laws::law_device_requests_are_read_as_written(s);
    } else if kind == 13 {
        reading_laws::law_store_requests_are_read_as_written(s);
    } else if kind == 14 {
        reading_laws::law_store_results_are_read_as_written(s);
    } else if kind == 16 {
        reading_laws::law_shell_requests_are_read_as_written(s);
    } else {
        reading_laws::law_shell_events_are_read_as_written(s);
    }
}

proof fn lemma_outcomes_read_as_written(kind: u8, s: Seq<u8>)
    requires
        kind == 11,
    ensures
        read_as_written(kind, s),
{
    reveal(message_codec::parse_message);
    reveal(message_codec::message_bytes);
    reading_laws::law_words_are_read_as_written(s);
    if wire::parse_u32(s) is Ok {
        let (task, after) = wire::parse_u32(s)->Ok_0;
        reading_laws::law_outcomes_are_read_as_written(after);
        if task_codec::parse_outcome(after) is Ok {
            let (outcome, rest) = task_codec::parse_outcome(after)->Ok_0;
            wire::lemma_concat_to_the_right(
                wire::be32(task),
                task_codec::outcome_bytes(outcome),
                rest,
            );
        }
    }
}

proof fn lemma_heads_read_as_written(s: Seq<u8>)
    ensures
        message_codec::parse_picture_head(s) matches Ok(((handle, width, height, format), rest))
            ==> reading_laws::spelled(s, message_codec::picture_head(handle, width, height, format), rest),
{
    broadcast use {
        reading_laws::law_words_are_read_as_written,
        reading_laws::law_bytes_are_read_as_they_are,
        wire::lemma_concat_to_the_right,
    };

}

proof fn lemma_pictures_read_as_written(kind: u8, s: Seq<u8>)
    requires
        kind == 18 || kind == 20,
    ensures
        read_as_written(kind, s),
{
    reveal(message_codec::parse_message);
    reveal(message_codec::message_bytes);
    lemma_heads_read_as_written(s);
    if message_codec::parse_picture_head(s) is Ok {
        let ((handle, width, height, format), after) = message_codec::parse_picture_head(s)->Ok_0;
        let head = message_codec::picture_head(handle, width, height, format);
        assert(head + after + Seq::empty() =~= head + after);
    }
}

proof fn lemma_pieces_read_as_written(kind: u8, s: Seq<u8>)
    requires
        kind == 21 || kind == 24,
    ensures
        read_as_written(kind, s),
{
    reveal(message_codec::parse_message);
    reveal(message_codec::message_bytes);
    broadcast use {
        reading_laws::law_words_are_read_as_written,
        reading_laws::law_labels_are_read_as_written,
        wire::lemma_concat_to_the_right,
        wire::lemma_concat_nothing,
    };

}

proof fn lemma_holds_read_as_written(kind: u8, s: Seq<u8>)
    requires
        kind == 26,
    ensures
        read_as_written(kind, s),
{
    reveal(message_codec::parse_message);
    reveal(message_codec::message_bytes);
    broadcast use {
        reading_laws::law_words_are_read_as_written,
        reading_laws::law_long_words_are_read_as_written,
        wire::lemma_concat_to_the_right,
    };

}

/// A message is read from its kind and the bytes that it is written as, whatever
/// it is about, save that screens, answers of the device and work may have been
/// written in more ways than one.
pub proof fn law_messages_are_read_as_written(kind: u8, s: Seq<u8>)
    requires
        kind != 3,
        kind != 8,
        kind != 9,
    ensures
        message_codec::parse_message(kind, s) matches Ok((message, rest)) ==> {
            &&& message_codec::message_kind(message) == kind
            &&& reading_laws::spelled(s, message_codec::message_bytes(message), rest)
        },
{
    if kind == 1 || kind == 12 || kind == 5 {
        lemma_names_read_as_written(kind, s);
    } else if kind == 2 {
        lemma_welcomes_read_as_written(kind, s);
    } else if kind == 4 || kind == 10 || kind == 19 || kind == 22 || kind == 25 {
        lemma_numbers_read_as_written(kind, s);
    } else if kind == 6 || kind == 15 || kind == 23 || kind == 27 {
        lemma_small_messages_read_as_written(kind, s);
    } else if kind == 7 || kind == 13 || kind == 14 || kind == 16 || kind == 17 {
        lemma_records_read_as_written(kind, s);
    } else if kind == 11 {
        lemma_outcomes_read_as_written(kind, s);
    } else if kind == 18 || kind == 20 {
        lemma_pictures_read_as_written(kind, s);
    } else if kind == 21 || kind == 24 {
        lemma_pieces_read_as_written(kind, s);
    } else if kind == 26 {
        lemma_holds_read_as_written(kind, s);
    } else {
        law_other_kinds_are_refused(kind, s);
    }
}

/// Only the kinds that a message can be of are read, and any other is named in
/// the refusal.
pub proof fn law_other_kinds_are_refused(kind: u8, s: Seq<u8>)
    requires
        kind == 0 || kind > 27,
    ensures
        message_codec::parse_message(kind, s) is Err,
        message_codec::parse_message(kind, s)->Err_0 == ProtocolError::UnknownMessageType(kind),
{
    reveal(message_codec::parse_message);
}

} // verus!
