//! What reading yields: nothing that sending it on would lose again.

use vstd::prelude::*;

use crate::device_request;
use crate::device_result;
use crate::frame;
use crate::item;
use crate::item::Wire;
use crate::leaf;
use crate::limits::{HEADER_LEN, MAX_DEPTH, MAX_TEXT_LINKS};
use crate::lists;
use crate::message::MessageModel;
use crate::message_codec;
use crate::node;
use crate::prose;
use crate::screen;
use crate::task_codec;
use crate::ui::{
    BandSlotModel, BarAction, Cell, Chip, InlineFormula, NodeId, NodeModel, RichTextSpan, Row,
    ScreenModel, TextLink, Tile,
};
use crate::wire;

verus! {

// ---------------------------------------------------------------------------
// Parts.

/// A part that reading never yields in a shape the wire would not carry.
pub trait Kept: Wire {
    proof fn lemma_yields(s: Seq<u8>)
        requires
            Self::parse(s) is Ok,
        ensures
            Self::faithful(Self::parse(s)->Ok_0.0),
    ;
}

impl Kept for BarAction {
    proof fn lemma_yields(s: Seq<u8>) {
    }
}

impl Kept for Chip {
    proof fn lemma_yields(s: Seq<u8>) {
    }
}

impl Kept for Cell {
    proof fn lemma_yields(s: Seq<u8>) {
    }
}

impl Kept for Row {
    proof fn lemma_yields(s: Seq<u8>) {
    }
}

impl Kept for Tile {
    proof fn lemma_yields(s: Seq<u8>) {
    }
}

proof fn lemma_count_yielded<T: Wire>(s: Seq<u8>, count: nat)
    requires
        item::parse_all::<T>(s, count) is Ok,
    ensures
        item::parse_all::<T>(s, count)->Ok_0.0.len() == count,
    decreases count,
{
    if count > 0 {
        lemma_count_yielded::<T>(T::parse(s)->Ok_0.1, (count - 1) as nat);
    }
}

proof fn lemma_all_yield<T: Kept>(s: Seq<u8>, count: nat)
    requires
        item::parse_all::<T>(s, count) is Ok,
    ensures
        item::parse_all::<T>(s, count)->Ok_0.0.len() == count,
        item::all_faithful::<T>(item::parse_all::<T>(s, count)->Ok_0.0),
    decreases count,
{
    if count > 0 {
        let (first, rest) = T::parse(s)->Ok_0;
        let tail = item::parse_all::<T>(rest, (count - 1) as nat)->Ok_0.0;
        T::lemma_yields(s);
        lemma_all_yield::<T>(rest, (count - 1) as nat);
        let list = seq![first] + tail;
        assert forall|i: int| 0 <= i < list.len() implies T::faithful(#[trigger] list[i]) by {
            if i > 0 {
                assert(list[i] == tail[i - 1]);
            }
        }
    }
}

proof fn lemma_tabs_yield(s: Seq<u8>, count: nat)
    requires
        lists::parse_tabs(s, count) is Ok,
    ensures
        lists::parse_tabs(s, count)->Ok_0.0.len() == count,
        lists::tabs_faithful(lists::parse_tabs(s, count)->Ok_0.0),
    decreases count,
{
    if count > 0 {
        let (first, rest) = lists::parse_tab(s)->Ok_0;
        let tail = lists::parse_tabs(rest, (count - 1) as nat)->Ok_0.0;
        lemma_tabs_yield(rest, (count - 1) as nat);
        let tabs = seq![first] + tail;
        assert forall|i: int| 0 <= i < tabs.len() implies !(
        #[trigger] tabs[i]).action.is_reserved_spec() && !tabs[i].selected by {
            if i > 0 {
                assert(tabs[i] == tail[i - 1]);
            }
        }
    }
}

proof fn lemma_links_yield(links: Seq<TextLink>, text: Seq<char>)
    ensures
        prose::links_land(prose::landed_links(links, text), text),
{
    broadcast use vstd::seq_lib::group_filter_ensures;

    let kept = prose::landed_links(links, text);
    assert forall|i: int| 0 <= i < kept.len() implies prose::link_lands(text)(
        #[trigger] kept[i],
    ) by {
        assert(kept.contains(kept[i]));
    }
}

proof fn lemma_spans_yield(s: Seq<u8>, count: nat, text: Seq<char>)
    requires
        prose::parse_spans(s, count, text) is Ok,
    ensures
        prose::spans_land(prose::parse_spans(s, count, text)->Ok_0.0, text),
    decreases count,
{
    if count > 0 {
        let (first, rest) = RichTextSpan::parse(s)->Ok_0;
        let tail = prose::parse_spans(rest, (count - 1) as nat, text)->Ok_0.0;
        lemma_spans_yield(rest, (count - 1) as nat, text);
        let spans = seq![first] + tail;
        assert forall|i: int| 0 <= i < spans.len() implies prose::is_run(
            text,
            (#[trigger] spans[i]).start as int,
            spans[i].end as int,
        ) by {
            if i > 0 {
                assert(spans[i] == tail[i - 1]);
            }
        }
    }
}

proof fn lemma_formulae_yield(
    kept: Seq<InlineFormula>,
    formulae: Seq<InlineFormula>,
    text: Seq<char>,
)
    requires
        prose::formulae_in_order(kept, text),
    ensures
        prose::formulae_in_order(prose::joined_formulae(kept, formulae, text), text),
    decreases formulae.len(),
{
    if formulae.len() > 0 {
        if prose::formula_joins(kept, formulae[0], text) {
            let more = kept.push(formulae[0]);
            assert(prose::formulae_in_order(more, text)) by {
                assert forall|i: int| 0 <= i < more.len() implies prose::is_run(
                    text,
                    (#[trigger] more[i]).start as int,
                    more[i].end as int,
                ) by {
                    if i < kept.len() {
                        assert(more[i] == kept[i]);
                    }
                }
                assert forall|i: int| 1 <= i < more.len() implies more[i - 1].end <= (
                #[trigger] more[i]).start by {
                    if i < kept.len() {
                        assert(more[i] == kept[i]);
                        assert(more[i - 1] == kept[i - 1]);
                    }
                }
            }
            lemma_formulae_yield(more, formulae.drop_first(), text);
        } else {
            lemma_formulae_yield(kept, formulae.drop_first(), text);
        }
    }
}

// ---------------------------------------------------------------------------
// Nodes.

/// Whether no text in a tree carries more links than are sent. Reading keeps
/// every link that lands; sending keeps the first few.
pub open spec fn node_links_few(node: NodeModel) -> bool
    decreases node,
{
    match node {
        NodeModel::Text { id, text, links } => links.len() <= MAX_TEXT_LINKS,
        NodeModel::Card { id, children } => nodes_links_few(children),
        NodeModel::Band { id, align, slots } => slots_links_few(slots),
        _ => true,
    }
}

pub open spec fn nodes_links_few(nodes: Seq<NodeModel>) -> bool
    decreases nodes,
{
    nodes.len() == 0 || (node_links_few(nodes[0]) && nodes_links_few(nodes.skip(1)))
}

pub open spec fn slots_links_few(slots: Seq<BandSlotModel>) -> bool
    decreases slots,
{
    slots.len() == 0 || (nodes_links_few(slots[0].nodes) && slots_links_few(slots.skip(1)))
}

proof fn lemma_rich_text_yields(id: NodeId, s: Seq<u8>)
    requires
        leaf::parse_rich_text(id, s) is Ok,
    ensures
        leaf::leaf_faithful(leaf::parse_rich_text(id, s)->Ok_0.0),
        leaf::leaf_refusal(leaf::parse_rich_text(id, s)->Ok_0.0) is None,
{
    reveal(leaf::leaf_faithful);
    let (text, after_text) = wire::parse_text(s)->Ok_0;
    let (count, after_count) = wire::parse_u16(after_text)->Ok_0;
    let (spans, rest) = prose::parse_spans(after_count, count as nat, text)->Ok_0;
    lemma_spans_yield(after_count, count as nat, text);
    let (presentation, s) = prose::parse_presentation(rest)->Ok_0;
    let (count, s) = wire::parse_u8(s)->Ok_0;
    let (links, s) = item::parse_all::<TextLink>(s, count as nat)->Ok_0;
    lemma_links_yield(links, text);
    let (selection, s) = prose::parse_selection(s)->Ok_0;
    let (count, s) = wire::parse_u8(s)->Ok_0;
    let (formulae, s) = item::parse_all::<InlineFormula>(s, count as nat)->Ok_0;
    lemma_formulae_yield(Seq::empty(), formulae, text);
}

proof fn lemma_lists_yield(tag: u8, id: NodeId, s: Seq<u8>)
    requires
        leaf::parse_leaf(tag, id, s) is Ok,
        tag == 9 || tag == 10 || tag == 14 || tag == 15 || tag == 23 || tag == 25 || tag == 26,
    ensures
        leaf::leaf_faithful(leaf::parse_leaf(tag, id, s)->Ok_0.0),
{
    reveal(leaf::parse_leaf);
    reveal(leaf::leaf_faithful);
    if tag == 9 {
        let (shape, s) = leaf::parse_shape(s)->Ok_0;
        let (count, s) = wire::parse_u8(s)->Ok_0;
        lemma_all_yield::<Tile>(s, count as nat);
    } else if tag == 10 {
        let (prompt, s) = wire::parse_text(s)->Ok_0;
        let (count, s) = wire::parse_u8(s)->Ok_0;
        lemma_all_yield::<BarAction>(s, count as nat);
    } else if tag == 14 {
        let (count, s) = wire::parse_u8(s)->Ok_0;
        lemma_all_yield::<Row>(s, count as nat);
    } else if tag == 15 {
        let (columns, s) = wire::parse_u8(s)->Ok_0;
        let (square, s) = wire::parse_flag(s, "grid square flag")->Ok_0;
        let (count, s) = wire::parse_u8(s)->Ok_0;
        lemma_all_yield::<Cell>(s, count as nat);
    } else if tag == 23 {
        let (count, s) = wire::parse_u16(s)->Ok_0;
        lemma_count_yielded::<(String, String)>(s, count as nat);
    } else if tag == 25 {
        let (count, s) = wire::parse_u8(s)->Ok_0;
        lemma_all_yield::<Chip>(s, count as nat);
    } else {
        let (count, s) = wire::parse_u8(s)->Ok_0;
        let (selected, s) = wire::parse_u8(s)->Ok_0;
        lemma_tabs_yield(s, count as nat);
    }
}

proof fn lemma_leaf_yields(tag: u8, id: NodeId, s: Seq<u8>)
    requires
        leaf::parse_leaf(tag, id, s) is Ok,
    ensures
        !(leaf::parse_leaf(tag, id, s)->Ok_0.0 is Card),
        !(leaf::parse_leaf(tag, id, s)->Ok_0.0 is Band),
        leaf::leaf_refusal(leaf::parse_leaf(tag, id, s)->Ok_0.0) is None,
        node_links_few(leaf::parse_leaf(tag, id, s)->Ok_0.0) ==> leaf::leaf_faithful(
            leaf::parse_leaf(tag, id, s)->Ok_0.0,
        ),
{
    reveal(leaf::parse_leaf);
    if tag == 28 {
        lemma_rich_text_yields(id, s);
    } else if tag == 9 || tag == 10 || tag == 14 || tag == 15 || tag == 23 || tag == 25 || tag
        == 26 {
        lemma_lists_yield(tag, id, s);
    } else if tag == 2 {
        reveal(leaf::leaf_faithful);
        let (text, s) = wire::parse_text(s)->Ok_0;
        let (count, s) = wire::parse_u8(s)->Ok_0;
        let (links, s) = item::parse_all::<TextLink>(s, count as nat)->Ok_0;
        lemma_links_yield(links, text);
    } else {
        reveal(leaf::leaf_faithful);
    }
}

proof fn lemma_node_yields(s: Seq<u8>, depth: int, count: int)
    requires
        node::parse_node(s, depth, count) is Ok,
        node_links_few(node::parse_node(s, depth, count)->Ok_0.0.0),
    ensures
        node::node_faithful(node::parse_node(s, depth, count)->Ok_0.0.0),
    decreases MAX_DEPTH + 1 - depth, 1nat, 0nat,
{
    let (tag, s) = wire::parse_u8(s)->Ok_0;
    let (id, s) = wire::parse_u32(s)->Ok_0;
    if tag == 4 {
        let (children, s) = wire::parse_u16(s)->Ok_0;
        lemma_nodes_yield(s, children as nat, depth + 1, count + 1);
    } else if tag == 22 {
        let (align, s) = node::parse_align(s)->Ok_0;
        let (slots, s) = wire::parse_u8(s)->Ok_0;
        lemma_slots_yield(s, slots as nat, depth + 1, count + 1);
    } else {
        lemma_leaf_yields(tag, NodeId(id), s);
    }
}

proof fn lemma_nodes_yield(s: Seq<u8>, wanted: nat, depth: int, count: int)
    requires
        node::parse_nodes(s, wanted, depth, count) is Ok,
        nodes_links_few(node::parse_nodes(s, wanted, depth, count)->Ok_0.0.0),
    ensures
        node::nodes_faithful(node::parse_nodes(s, wanted, depth, count)->Ok_0.0.0),
    decreases MAX_DEPTH + 1 - depth, 2nat, wanted,
{
    if wanted > 0 {
        let ((first, after), rest) = node::parse_node(s, depth, count)->Ok_0;
        let tail = node::parse_nodes(rest, (wanted - 1) as nat, depth, after)->Ok_0.0.0;
        let nodes = seq![first] + tail;
        assert(nodes[0] == first);
        assert(nodes.skip(1) =~= tail);
        lemma_node_yields(s, depth, count);
        lemma_nodes_yield(rest, (wanted - 1) as nat, depth, after);
    }
}

proof fn lemma_slots_yield(s: Seq<u8>, wanted: nat, depth: int, count: int)
    requires
        node::parse_slots(s, wanted, depth, count) is Ok,
        slots_links_few(node::parse_slots(s, wanted, depth, count)->Ok_0.0.0),
    ensures
        node::parse_slots(s, wanted, depth, count)->Ok_0.0.0.len() == wanted,
        node::slots_faithful(node::parse_slots(s, wanted, depth, count)->Ok_0.0.0),
    decreases MAX_DEPTH + 1 - depth, 4nat, wanted,
{
    if wanted > 0 {
        let ((first, after), rest) = node::parse_slot(s, depth, count)->Ok_0;
        let tail = node::parse_slots(rest, (wanted - 1) as nat, depth, after)->Ok_0.0.0;
        let slots = seq![first] + tail;
        assert(slots[0] == first);
        assert(slots.skip(1) =~= tail);
        let (width, inner) = node::parse_width(s)->Ok_0;
        let (inside, inner) = wire::parse_u16(inner)->Ok_0;
        lemma_nodes_yield(inner, inside as nat, depth, count);
        assert(node::slot_faithful(first));
        lemma_slots_yield(rest, (wanted - 1) as nat, depth, after);
    }
}

// ---------------------------------------------------------------------------
// Screens.

/// Whether no text on a screen carries more links than are sent.
pub open spec fn screen_links_few(screen: ScreenModel) -> bool {
    &&& nodes_links_few(screen.nodes)
    &&& screen.overlay is Some ==> nodes_links_few(screen.overlay->0.nodes)
}

proof fn lemma_bars_yield(s: Seq<u8>)
    ensures
        screen::parse_top_bar(s) is Ok ==> screen::top_bar_faithful(
            screen::parse_top_bar(s)->Ok_0.0,
        ),
        screen::parse_nav_bar(s) is Ok ==> screen::nav_bar_faithful(
            screen::parse_nav_bar(s)->Ok_0.0,
        ),
        screen::parse_bottom(s) is Ok && screen::parse_bottom(s)->Ok_0.0 is Some
            ==> BarAction::faithful(screen::parse_bottom(s)->Ok_0.0->0.action),
{
    reveal(screen::parse_top_bar);
    reveal(screen::parse_nav_bar);
    reveal(screen::parse_bottom);
    let (flag, s) = wire::parse_u8(s)->Ok_0;
    let (id, s) = wire::parse_u32(s)->Ok_0;
    let (title, titled) = wire::parse_text(s)->Ok_0;
    let (count, listed) = wire::parse_u8(titled)->Ok_0;
    if item::parse_all::<BarAction>(listed, count as nat) is Ok {
        lemma_all_yield::<BarAction>(listed, count as nat);
    }
    let (count, counted) = wire::parse_u8(s)->Ok_0;
    let (selected, listed) = wire::parse_u8(counted)->Ok_0;
    if item::parse_all::<BarAction>(listed, count as nat) is Ok {
        lemma_all_yield::<BarAction>(listed, count as nat);
    }
}

proof fn lemma_counted_nodes_yield(s: Seq<u8>, depth: int, count: int)
    requires
        screen::parse_counted_nodes(s, depth, count) is Ok,
        nodes_links_few(screen::parse_counted_nodes(s, depth, count)->Ok_0.0.0),
    ensures
        node::nodes_faithful(screen::parse_counted_nodes(s, depth, count)->Ok_0.0.0),
{
    let (wanted, s) = wire::parse_u16(s)->Ok_0;
    lemma_nodes_yield(s, wanted as nat, depth, count);
}

proof fn lemma_overlay_yields(s: Seq<u8>, depth: int, count: int)
    requires
        screen::parse_overlay(s, depth, count) is Ok,
        screen::parse_overlay(s, depth, count)->Ok_0.0.0 is Some ==> nodes_links_few(
            screen::parse_overlay(s, depth, count)->Ok_0.0.0->0.nodes,
        ),
    ensures
        screen::overlay_faithful(screen::parse_overlay(s, depth, count)->Ok_0.0.0),
{
    reveal(screen::parse_overlay);
    let (flag, s) = wire::parse_u8(s)->Ok_0;
    if flag == 1 {
        let (id, s) = wire::parse_u32(s)->Ok_0;
        let (kind, s) = screen::parse_kind(s)->Ok_0;
        let (title, s) = wire::parse_text(s)->Ok_0;
        lemma_counted_nodes_yield(s, depth, count);
    }
}

proof fn lemma_screen_yields(s: Seq<u8>, depth: int, count: int)
    requires
        screen::parse_screen(s, depth, count) is Ok,
        screen_links_few(screen::parse_screen(s, depth, count)->Ok_0.0.0),
    ensures
        screen::screen_faithful(screen::parse_screen(s, depth, count)->Ok_0.0.0),
{
    let (id, s) = wire::parse_u32(s)->Ok_0;
    lemma_bars_yield(s);
    let (top_bar, s) = screen::parse_top_bar(s)->Ok_0;
    lemma_bars_yield(s);
    let (nav_bar, s) = screen::parse_nav_bar(s)->Ok_0;
    lemma_bars_yield(s);
    let (bottom, s) = screen::parse_bottom(s)->Ok_0;
    let (page_turns, s) = screen::parse_turns(s)->Ok_0;
    let (habits, s) = screen::parse_habits(s)->Ok_0;
    lemma_counted_nodes_yield(s, depth, count);
    let ((nodes, after), s) = screen::parse_counted_nodes(s, depth, count)->Ok_0;
    lemma_overlay_yields(s, depth, after);
}

// ---------------------------------------------------------------------------
// Messages.

/// Whether no text of a message carries more links than are sent.
pub open spec fn message_links_few(message: MessageModel) -> bool {
    message is SetScreen ==> screen_links_few(message->SetScreen_0)
}

proof fn lemma_device_request_yields(s: Seq<u8>)
    requires
        device_request::parse_device_request(s) is Ok,
    ensures
        device_request::device_request_faithful(device_request::parse_device_request(s)->Ok_0.0),
{
}

proof fn lemma_device_result_yields(s: Seq<u8>)
    requires
        device_result::parse_device_result(s) is Ok,
    ensures
        device_result::device_result_faithful(device_result::parse_device_result(s)->Ok_0.0),
{
    reveal(device_result::parse_device_result);
    reveal(device_result::parse_detail);
}

proof fn lemma_task_yields(s: Seq<u8>)
    requires
        task_codec::parse_task(s) is Ok,
    ensures
        task_codec::task_faithful(task_codec::parse_task(s)->Ok_0.0),
{
}

proof fn lemma_message_yields(kind: u8, s: Seq<u8>)
    requires
        message_codec::parse_message(kind, s) is Ok,
        message_links_few(message_codec::parse_message(kind, s)->Ok_0.0),
    ensures
        message_codec::message_faithful(message_codec::parse_message(kind, s)->Ok_0.0),
{
    reveal(message_codec::parse_message);
    if kind == 3 {
        lemma_screen_yields(s, 0, 0);
    } else if kind == 7 {
        lemma_device_request_yields(s);
    } else if kind == 8 {
        lemma_device_result_yields(s);
    } else if kind == 9 {
        let (task, s) = wire::parse_u32(s)->Ok_0;
        lemma_task_yields(s);
    }
}

/// Nothing is lost twice: a frame that was read, unless one of its texts
/// carries more links than are sent, says nothing that the wire would drop,
/// clip or refuse, so that when it is sent on it is read again as itself.
pub proof fn law_what_was_read_reads_back(bytes: Seq<u8>)
    requires
        frame::decoded(bytes) is Ok,
        message_links_few(frame::decoded(bytes)->Ok_0.message),
    ensures
        message_codec::message_faithful(frame::decoded(bytes)->Ok_0.message),
        frame::encoded(frame::decoded(bytes)->Ok_0) is Ok ==> frame::decoded(
            frame::encoded(frame::decoded(bytes)->Ok_0)->Ok_0,
        ) == frame::decoded(bytes),
{
    lemma_message_yields(bytes[5], bytes.skip(HEADER_LEN as int));
    if frame::encoded(frame::decoded(bytes)->Ok_0) is Ok {
        frame::law_frames_read_back(frame::decoded(bytes)->Ok_0);
    }
}

} // verus!
