//! What reading does with bytes that nothing is written as: which of them are
//! taken for something, which are brought within bounds and which are refused.

use vstd::prelude::*;

use crate::error::ProtocolError;
use crate::leaf;
use crate::message_codec;
use crate::node;
use crate::parts;
use crate::prose;
use crate::screen;
use crate::ui::{NodeId, NodeModel};
use crate::wire;

verus! {

// ---------------------------------------------------------------------------
// Parts.

/// A fold is announced by one alone: behind any other byte there is none.
pub proof fn law_only_one_announces_a_fold(s: Seq<u8>)
    requires
        s.len() >= 1,
    ensures
        s[0] != 1 ==> (leaf::parse_fold(s) matches Ok((fold, rest)) && fold is None && rest
            == s.skip(1)),
        s[0] == 1 ==> (leaf::parse_fold(s) is Ok <==> s.len() >= 8),
        s[0] == 1 ==> (leaf::parse_fold(s) matches Ok((fold, rest)) ==> fold matches Some(inner)
            && (inner.collapsed <==> s[5] == 1)),
{
    reveal(wire::parse_u8);
    reveal(wire::parse_u16);
    reveal(wire::parse_u32);
}

/// A word at the far end of a row and a menu behind it are announced by any byte
/// but zero.
pub proof fn law_any_byte_but_zero_announces_a_word(s: Seq<u8>)
    requires
        s.len() >= 1,
    ensures
        s[0] == 0 ==> (parts::parse_trailing(s) matches Ok((word, rest)) && word is None && rest
            == s.skip(1)),
        s[0] != 0 ==> (parts::parse_trailing(s) is Ok <==> wire::parse_text(s.skip(1)) is Ok),
        s[0] != 0 ==> (parts::parse_trailing(s) matches Ok((word, rest)) ==> word == Some(
            wire::parse_text(s.skip(1))->Ok_0.0,
        )),
        s[0] == 0 ==> (parts::parse_menu(s) matches Ok((menu, rest)) && menu is None && rest
            == s.skip(1)),
        s[0] != 0 ==> (parts::parse_menu(s) is Ok <==> parts::parse_own_action(s.skip(1)) is Ok),
        s[0] != 0 ==> (parts::parse_menu(s) matches Ok((menu, rest)) ==> menu == Some(
            parts::parse_own_action(s.skip(1))->Ok_0.0,
        )),
{
    reveal(wire::parse_u8);
}

/// Two bytes say how a band is aligned and any other leaves it at the top; two
/// say how wide a slot is and any other lets it fill what is left.
pub proof fn law_bands_fall_back(s: Seq<u8>)
    requires
        s.len() >= 1,
    ensures
        node::parse_align(s) matches Ok((align, rest)) && {
            &&& align is Middle <==> s[0] == 1
            &&& align is Bottom <==> s[0] == 2
            &&& rest == s.skip(1)
        },
        s[0] == 0 ==> (node::parse_width(s) matches Ok((width, rest)) && width is Natural && rest
            == s.skip(1)),
        s[0] != 0 && s[0] != 2 ==> (node::parse_width(s) matches Ok((width, rest)) && width is Fill
            && rest == s.skip(1)),
        s[0] == 2 ==> (node::parse_width(s) is Ok <==> s.len() >= 3),
        s[0] == 2 ==> (node::parse_width(s) matches Ok((width, rest)) ==> width is Fixed && rest
            == s.skip(3)),
{
    reveal(wire::parse_u8);
    reveal(wire::parse_u16);
    if s.len() >= 3 {
        assert(s.skip(1).skip(2) =~= s.skip(3));
    }
}

/// A reserved action is refused where an application's own is read.
pub proof fn law_reserved_actions_are_refused(s: Seq<u8>)
    requires
        s.len() >= 4,
    ensures
        parts::parse_own_action(s) is Err <==> wire::parse_u32(s)->Ok_0.0
            == crate::limits::RESERVED_ACTION,
        parts::parse_own_action(s) matches Ok((action, rest)) ==> action.0 == wire::parse_u32(
            s,
        )->Ok_0.0,
{
    reveal(wire::parse_u32);
}

/// A share is read as it is up to a hundred, and as a hundred above.
pub proof fn law_shares_stop_at_a_hundred(id: NodeId, s: Seq<u8>)
    requires
        s.len() >= 1,
    ensures
        leaf::parse_progress_node(id, s) matches Ok((drawn, rest)) && {
            &&& drawn matches NodeModel::Progress { id: drawn_id, value }
            &&& drawn_id == id
            &&& s[0] <= 100 ==> value.value == s[0]
            &&& s[0] > 100 ==> value.value == 100
        },
        s[0] == 0 ==> (leaf::parse_fill(s) matches Ok((fill, rest)) && fill is None),
        1 <= s[0] <= 101 ==> (leaf::parse_fill(s) matches Ok((fill, rest)) && fill == Some(
            (s[0] - 1) as u8,
        )),
        s[0] > 101 ==> leaf::parse_fill(s) is Err,
{
    reveal(wire::parse_u8);
}

/// A mark of an answer names one that is there, counted from one, or none.
pub proof fn law_answers_name_what_is_there(byte: u8, count: int)
    requires
        0 <= count <= 255,
    ensures
        leaf::answer_of(byte, count) is None <==> byte == 0 || byte > count,
        leaf::answer_of(byte, count) matches Some(answer) ==> answer + 1 == byte && answer < count,
{
}

// ---------------------------------------------------------------------------
// Nodes.

/// A quotation is drawn no deeper than six levels, and is a byline exactly when
/// its second byte is one.
pub proof fn law_quotations_are_drawn_so_deep(id: NodeId, s: Seq<u8>)
    requires
        leaf::parse_quote(id, s) is Ok,
    ensures
        leaf::parse_quote(id, s)->Ok_0.0 matches NodeModel::Quote { id: quote, depth, role, .. } && {
            &&& quote == id
            &&& s[0] <= 6 ==> depth == s[0]
            &&& s[0] > 6 ==> depth == 6
            &&& role is Byline <==> s[1] == 1
        },
{
    reveal(wire::parse_u8);
}

/// A button stands out exactly when its sixth byte is one, and cannot be pressed
/// exactly when the byte before is.
pub proof fn law_buttons_stand_out(id: NodeId, s: Seq<u8>)
    requires
        leaf::parse_button(id, s) is Ok,
    ensures
        leaf::parse_button(id, s)->Ok_0.0 matches NodeModel::Button {
            id: button,
            state,
            emphasis,
            ..
        } && {
            &&& button == id
            &&& s[4] <= 1
            &&& state is Disabled <==> s[4] == 1
            &&& emphasis is Primary <==> s[5] == 1
        },
{
    reveal(wire::parse_u8);
    reveal(wire::parse_u32);
}

/// The tab that is chosen is the one that is named, if it is there, and otherwise
/// the first.
pub proof fn law_chosen_tabs_are_there(id: NodeId, s: Seq<u8>)
    requires
        leaf::parse_tabs_node(id, s) is Ok,
    ensures
        leaf::parse_tabs_node(id, s)->Ok_0.0 matches NodeModel::Tabs { id: node, tabs, selected } && {
            &&& node == id
            &&& s[0] <= 4
            &&& s[1] < tabs.len() ==> selected == s[1]
            &&& s[1] >= tabs.len() ==> selected == 0
        },
{
    reveal(wire::parse_u8);
}

/// More entries than fit are refused, and so are columns that are none or too
/// many.
pub proof fn law_long_lists_are_refused(id: NodeId, s: Seq<u8>)
    requires
        s.len() >= 2,
    ensures
        s[0] > 24 ==> leaf::parse_chips(id, s)->Err_0 == ProtocolError::TooManyNodes,
        s[0] > 4 ==> leaf::parse_tabs_node(id, s)->Err_0 == ProtocolError::TooManyNodes,
        s[0] > 64 ==> leaf::parse_terminal(id, s)->Err_0 == ProtocolError::TooManyNodes,
        s[0] == 0 || s[0] > 12 ==> leaf::parse_grid(id, s)->Err_0 == ProtocolError::InvalidValue(
            "grid columns",
        ),
        s[0] * 256 + s[1] > 24 ==> leaf::parse_facts(id, s)->Err_0 == ProtocolError::TooManyNodes,
{
    reveal(wire::parse_u8);
    reveal(wire::parse_u16);
}

/// A picture has a frame exactly when its last byte is not zero.
pub proof fn law_frames_are_drawn_when_asked(id: NodeId, s: Seq<u8>)
    ensures
        leaf::parse_picture_node(id, s) is Ok <==> s.len() >= 15,
        leaf::parse_picture_node(id, s) matches Ok((drawn, rest)) ==> {
            &&& drawn matches NodeModel::Picture { id: picture, framed, .. }
            &&& picture == id
            &&& framed <==> s[14] != 0
            &&& rest == s.skip(15)
        },
{
    reveal(wire::parse_u8);
    reveal(wire::parse_u16);
    reveal(wire::parse_u32);
    if s.len() >= 15 {
        assert(s.skip(4).skip(4).skip(4).skip(2).skip(1) =~= s.skip(15));
    }
}

/// How a paragraph is set is brought within what can be drawn: lines from 80 to
/// 250 hundredths high, and margins and an indent of two ems at most.
pub proof fn law_paragraphs_are_set_within_bounds(s: Seq<u8>)
    requires
        prose::parse_presentation(s) is Ok,
    ensures
        ({
            let set = prose::parse_presentation(s)->Ok_0.0;
            let height = s[1] * 256 + s[2];
            let before = s[3] * 256 + s[4];
            let after = s[5] * 256 + s[6];
            let indent = if s[7] < 128 {
                s[7] * 256 + s[8]
            } else {
                s[7] * 256 + s[8] - 65_536
            };
            &&& 80 <= height <= 250 ==> set.line_height_percent == height
            &&& height < 80 ==> set.line_height_percent == 80
            &&& height > 250 ==> set.line_height_percent == 250
            &&& before <= 2_000 ==> set.margin_before_em == before
            &&& before > 2_000 ==> set.margin_before_em == 2_000
            &&& after <= 2_000 ==> set.margin_after_em == after
            &&& after > 2_000 ==> set.margin_after_em == 2_000
            &&& -2_000 <= indent <= 2_000 ==> set.first_line_indent_em == indent
            &&& indent < -2_000 ==> set.first_line_indent_em == -2_000
            &&& indent > 2_000 ==> set.first_line_indent_em == 2_000
        }),
{
    reveal(wire::parse_u8);
    reveal(wire::parse_u16);
}

/// Trees that are too deep or hold too many nodes are refused before they are
/// read.
pub proof fn law_deep_trees_are_refused(s: Seq<u8>, depth: int, count: int)
    ensures
        depth > 16 ==> node::parse_node(s, depth, count)->Err_0 == ProtocolError::TooDeep,
        depth <= 16 && count >= 512 ==> node::parse_node(s, depth, count)->Err_0
            == ProtocolError::TooManyNodes,
{
}

// ---------------------------------------------------------------------------
// Screens.

/// A part of a screen that may be left out is left out at zero and given at one,
/// or at one of the two ways in which it can be given; anything else is refused.
pub proof fn law_other_bytes_are_no_flag(s: Seq<u8>, name: &'static str, depth: int, count: int)
    requires
        s.len() >= 1,
    ensures
        s[0] == 0 ==> (screen::parse_top_bar(s) matches Ok((bar, rest)) && bar is None),
        s[0] > 1 ==> screen::parse_top_bar(s)->Err_0 == ProtocolError::InvalidValue("top bar flag"),
        s[0] == 0 ==> (screen::parse_nav_bar(s) matches Ok((bar, rest)) && bar is None),
        s[0] > 2 ==> screen::parse_nav_bar(s)->Err_0 == ProtocolError::InvalidValue("nav bar flag"),
        s[0] == 0 ==> (screen::parse_bottom(s) matches Ok((bottom, rest)) && bottom is None),
        s[0] > 1 ==> screen::parse_bottom(s)->Err_0 == ProtocolError::InvalidValue(
            "bottom action flag",
        ),
        s[0] == 0 ==> (screen::parse_turns(s) matches Ok((turns, rest)) && turns is None),
        s[0] > 2 ==> screen::parse_turns(s)->Err_0 == ProtocolError::InvalidValue("page turn flag"),
        s[0] == 0 ==> (screen::parse_position(s) matches Ok((position, rest)) && position is None),
        s[0] > 1 ==> screen::parse_position(s)->Err_0 == ProtocolError::InvalidValue(
            "page position flag",
        ),
        s[0] == 0 ==> (screen::parse_word(s, name) matches Ok((word, rest)) && word is None),
        s[0] > 1 ==> screen::parse_word(s, name)->Err_0 == ProtocolError::InvalidValue(name),
        s[0] > 3 ==> screen::parse_scale(s)->Err_0 == ProtocolError::InvalidValue("text scale"),
        s[0] == 0 ==> (screen::parse_surface(s) matches Ok((surface, rest)) && surface is None),
        s[0] > 2 ==> screen::parse_surface(s)->Err_0 == ProtocolError::InvalidValue(
            "reading surface flag",
        ),
        s[0] > 1 ==> screen::parse_kind(s)->Err_0 == ProtocolError::InvalidValue("overlay kind"),
        s[0] > 1 ==> screen::parse_overlay(s, depth, count)->Err_0 == ProtocolError::InvalidValue(
            "overlay flag",
        ),
{
    reveal(wire::parse_u8);
    reveal(screen::parse_top_bar);
    reveal(screen::parse_nav_bar);
    reveal(screen::parse_bottom);
    reveal(screen::parse_turns);
    reveal(screen::parse_overlay);
}

/// The destination that is chosen in a bar is the one that is named, if it is
/// there, otherwise the last; at 255 none is chosen.
pub proof fn law_chosen_destinations_are_there(s: Seq<u8>)
    requires
        screen::parse_nav_bar(s) is Ok,
        s[0] != 0,
    ensures
        screen::parse_nav_bar(s)->Ok_0.0 matches Some(bar) && {
            let there = bar.destinations.len();
            &&& there >= 2
            &&& bar.style is Navigation <==> s[0] == 1
            &&& bar.style is Actions <==> s[0] == 2
            &&& s[6] == 255 ==> bar.selected is None
            &&& s[6] < 255 && s[6] < there ==> bar.selected == Some(s[6] as usize)
            &&& s[6] < 255 && s[6] >= there ==> bar.selected == Some((there - 1) as usize)
        },
{
    reveal(screen::parse_nav_bar);
    reveal(wire::parse_u8);
    reveal(wire::parse_u32);
}

/// A page has its surface to itself or under a bar, by the byte that announces
/// it.
pub proof fn law_surfaces_are_announced(s: Seq<u8>)
    requires
        screen::parse_surface(s) is Ok,
    ensures
        screen::parse_surface(s)->Ok_0.0 is Some <==> s[0] == 1 || s[0] == 2,
        screen::parse_surface(s)->Ok_0.0 matches Some(surface) ==> {
            &&& surface.chrome is Hidden <==> s[0] == 1
            &&& surface.chrome is Overlay <==> s[0] == 2
        },
{
    reveal(wire::parse_u8);
}

/// A screen with a bar has no action under it, whatever was said of one.
pub proof fn law_bars_leave_no_bottom_action(s: Seq<u8>, depth: int, count: int)
    requires
        screen::parse_screen(s, depth, count) is Ok,
    ensures
        ({
            let read = screen::parse_screen(s, depth, count)->Ok_0.0.0;
            read.nav_bar is Some ==> read.bottom_action is None
        }),
{
}

// ---------------------------------------------------------------------------
// Messages.

/// A held run of text has letters in it.
pub proof fn law_held_text_has_letters(s: Seq<u8>)
    ensures
        message_codec::parse_text_hold(s) matches Ok((message, rest)) ==> {
            &&& message matches crate::message::MessageModel::TextHold { start, end, .. }
            &&& start < end
        },
{
}

/// Exactly the bytes that a picture takes are read as it.
pub proof fn law_pictures_are_read_whole(s: Seq<u8>, expected: int)
    requires
        expected >= 0,
    ensures
        message_codec::parse_exactly(s, expected) is Ok <==> s.len() == expected,
        s.len() < expected ==> message_codec::parse_exactly(s, expected)->Err_0
            == ProtocolError::Truncated,
        s.len() > expected ==> message_codec::parse_exactly(s, expected)->Err_0
            == ProtocolError::LengthMismatch,
        message_codec::parse_exactly(s, expected) matches Ok((bytes, rest)) ==> bytes == s
            && rest.len() == 0,
{
}

} // verus!
