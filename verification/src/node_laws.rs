//! Which screens can be sent, and what of them arrives.

use vstd::prelude::*;

use crate::error::ProtocolError;
use crate::item;
use crate::item::Wire;
use crate::leaf;
use crate::limits::{
    MAX_BAND_SLOTS, MAX_CHIPS, MAX_DEPTH, MAX_FACTS, MAX_FRAME_LEN, MAX_INLINE_FORMULAE, MAX_NODES,
    MAX_RICH_TEXT_SPANS, MAX_TABS, MAX_TEXT_LINKS,
};
use crate::lists;
use crate::node;
use crate::prose;
use crate::screen;
use crate::sending;
use crate::ui::{
    ActionId, BandSlotModel, BarAction, BarActionModel, Cell, Chip, ChipModel, InlineFormula,
    NavBarModel, NodeModel, Row, ScreenModel, TextLink, Tile,
};
use crate::wire;

verus! {

/// A text of no more than a page.
pub open spec fn brief(text: Seq<char>) -> bool {
    wire::utf8_len(text) <= 4096
}

/// A run of values of which each takes no more than `most` bytes is counted
/// whole, if that many of them fit.
proof fn lemma_all_grow<T: Wire>(list: Seq<T::V>, total: int, most: int)
    requires
        0 <= total,
        0 <= most,
        total + list.len() * most <= MAX_FRAME_LEN,
        forall|i: int, t: int|
            0 <= i < list.len() && 0 <= t && t + most <= MAX_FRAME_LEN ==> (#[trigger] T::grown(
                list[i],
                t,
            ) is Ok && t <= T::grown(list[i], t)->Ok_0 <= t + most),
    ensures
        item::grown_by_all::<T>(list, Ok(total)) is Ok,
        total <= item::grown_by_all::<T>(list, Ok(total))->Ok_0 <= total + list.len() * most,
    decreases list.len(),
{
    if list.len() > 0 {
        let rest = list.drop_first();
        assert(list.len() * most == rest.len() * most + most) by (nonlinear_arith)
            requires
                list.len() == rest.len() + 1,
        ;
        assert(0 <= rest.len() * most) by (nonlinear_arith)
            requires
                0 <= most,
        ;
        let now = T::grown(list[0], total)->Ok_0;
        assert(T::grown(list[0], total) is Ok);
        assert forall|i: int, t: int|
            0 <= i < rest.len() && 0 <= t && t + most <= MAX_FRAME_LEN implies (#[trigger] T::grown(
            rest[i],
            t,
        ) is Ok && t <= T::grown(rest[i], t)->Ok_0 <= t + most) by {
            assert(rest[i] == list[i + 1]);
            assert(T::grown(list[i + 1], t) is Ok);
        }
        lemma_all_grow::<T>(rest, now, most);
    }
}

/// A control of a bar takes its label and at most eight bytes more.
proof fn lemma_bar_action_grows(action: BarActionModel)
    requires
        sending::short(action.label),
    ensures
        BarAction::bytes(action).len() <= 8 + wire::utf8_len(action.label),
{
    broadcast use wire::group_lengths;

}

// ---------------------------------------------------------------------------
// Leaves.

/// A node of one or two texts can be sent exactly when each of its texts fits,
/// and one without texts always can.
pub proof fn law_wordy_nodes_are_sent(node: NodeModel)
    ensures
        ({
            let sent = leaf::leaf_grown(node) is Ok;
            match node {
                NodeModel::Heading { id, text, level } => sent <==> sending::short(text),
                NodeModel::Secondary { id, text } => sent <==> sending::short(text),
                NodeModel::Banner { id, level, text } => sent <==> sending::short(text),
                NodeModel::Quote { id, depth, role, text, fold } => sent <==> sending::short(text),
                NodeModel::Button { id, action, label, state, emphasis } => sent
                    <==> sending::short(label),
                NodeModel::Section { id, title, value } => sent <==> sending::short(title) && (
                value is Some ==> sending::short(value->0)),
                NodeModel::Field { id, action, value, placeholder, clear } => sent
                    <==> sending::short(value) && sending::short(placeholder),
                NodeModel::Splash { id, glyph, title, summary } => sent <==> sending::short(title)
                    && sending::short(summary),
                NodeModel::Divider { id } => sent,
                NodeModel::Flex { id } => sent,
                NodeModel::Spacer { id, space } => sent,
                NodeModel::Progress { id, value } => sent,
                NodeModel::Picture { .. } => sent,
                NodeModel::Skeleton { id, lines } => sent,
                _ => true,
            }
        }),
{
    reveal(leaf::leaf_grown);
}

/// A paragraph can be sent whatever links it has, for only so many go with it; a
/// set one up to the last span that it may have.
pub proof fn law_paragraphs_are_sent(node: NodeModel)
    ensures
        ({
            let sent = leaf::leaf_grown(node);
            match node {
                NodeModel::Text { id, text, links } => sent is Ok <==> sending::short(text),
                NodeModel::RichText {
                    id,
                    text,
                    spans,
                    links,
                    presentation,
                    selection,
                    formulae,
                } => {
                    &&& sent is Ok <==> sending::short(text) && spans.len() <= MAX_RICH_TEXT_SPANS
                    &&& spans.len() > MAX_RICH_TEXT_SPANS ==> sent == Err::<int, _>(
                        ProtocolError::TooManyNodes,
                    )
                },
                _ => true,
            }
        }),
{
    reveal(leaf::leaf_grown);
    match node {
        NodeModel::Text { id, text, links } => {
            let kept = prose::at_most(links, MAX_TEXT_LINKS as int);
            if sending::short(text) {
                lemma_all_grow::<TextLink>(kept, 6 + 2 + wire::utf8_len(text), 12);
            }
        },
        NodeModel::RichText { id, text, spans, links, presentation, selection, formulae } => {
            let kept = prose::at_most(links, MAX_TEXT_LINKS as int);
            let drawn = prose::at_most(formulae, MAX_INLINE_FORMULAE as int);
            if sending::short(text) && spans.len() <= MAX_RICH_TEXT_SPANS {
                let start = 5 + 2 + wire::utf8_len(text) + (2 + spans.len() * 9 + 9 + 1 + 1);
                lemma_all_grow::<TextLink>(kept, start, 12);
                let linked = item::grown_by_all::<TextLink>(kept, Ok(start))->Ok_0;
                let selected = linked + if selection is Some {
                    12int
                } else {
                    0
                };
                lemma_all_grow::<InlineFormula>(drawn, selected + 1, 20);
            }
        },
        _ => {},
    }
}

/// Chips, tabs and facts can be sent whenever those of them that go have texts
/// that fit: what is past the last that goes does not count.
pub proof fn law_short_lists_are_sent(node: NodeModel)
    ensures
        ({
            let sent = leaf::leaf_grown(node) is Ok;
            match node {
                NodeModel::Chips { id, chips } => (forall|i: int|
                    0 <= i < chips.len() && i < 24 ==> sending::short((#[trigger] chips[i]).label))
                    ==> sent,
                NodeModel::Tabs { id, tabs, selected } => (forall|i: int|
                    0 <= i < tabs.len() && i < 4 ==> sending::short((#[trigger] tabs[i]).label))
                    ==> sent,
                NodeModel::Facts { id, entries } => (forall|i: int|
                    0 <= i < entries.len() && i < 24 ==> sending::short((#[trigger] entries[i]).0)
                        && sending::short(entries[i].1)) ==> sent,
                _ => true,
            }
        }),
{
    reveal(leaf::leaf_grown);
    match node {
        NodeModel::Chips { id, chips } => if forall|i: int|
            0 <= i < chips.len() && i < 24 ==> sending::short((#[trigger] chips[i]).label) {
            let kept = prose::at_most(chips, MAX_CHIPS as int);
            assert forall|i: int| 0 <= i < kept.len() implies sending::short(
                (#[trigger] kept[i]).label,
            ) by {
                assert(kept[i] == chips[i]);
            }
            lemma_all_grow::<Chip>(kept, 6, 16_391);
        },
        NodeModel::Tabs { id, tabs, selected } => if forall|i: int|
            0 <= i < tabs.len() && i < 4 ==> sending::short((#[trigger] tabs[i]).label) {
            let kept = prose::at_most(tabs, MAX_TABS as int);
            assert forall|i: int| 0 <= i < kept.len() implies sending::short(
                (#[trigger] kept[i]).label,
            ) by {
                assert(kept[i] == tabs[i]);
            }
            lemma_tabs_grow(kept, 7);
        },
        NodeModel::Facts { id, entries } => if forall|i: int|
            0 <= i < entries.len() && i < 24 ==> sending::short((#[trigger] entries[i]).0)
                && sending::short(entries[i].1) {
            let kept = prose::at_most(entries, MAX_FACTS as int);
            assert forall|i: int| 0 <= i < kept.len() implies sending::short((#[trigger] kept[i]).0)
                && sending::short(kept[i].1) by {
                assert(kept[i] == entries[i]);
            }
            lemma_all_grow::<(String, String)>(kept, 7, 32_772);
        },
        _ => {},
    }
}

proof fn lemma_tabs_grow(tabs: Seq<ChipModel>, total: int)
    requires
        0 <= total,
        total + tabs.len() * 16_390 <= MAX_FRAME_LEN,
        forall|i: int| 0 <= i < tabs.len() ==> sending::short((#[trigger] tabs[i]).label),
    ensures
        lists::grown_by_tabs(tabs, Ok(total)) is Ok,
    decreases tabs.len(),
{
    if tabs.len() > 0 {
        assert(sending::short(tabs[0].label));
        lemma_tabs_grow(tabs.drop_first(), total + 6 + wire::utf8_len(tabs[0].label));
    }
}

/// Rows, cells, tiles, answers and tables go up to the last that a byte can
/// count, and lists up to the last that a screen can hold, while their texts are
/// no longer than a page; one more of them is one too many.
pub proof fn law_long_lists_are_sent(node: NodeModel)
    ensures
        ({
            let sent = leaf::leaf_grown(node);
            let too_many = Err::<int, ProtocolError>(ProtocolError::TooManyNodes);
            match node {
                NodeModel::PagedList { id, page, items } => {
                    &&& items.len() > 512 ==> sent == too_many
                    &&& items.len() <= 512 && (forall|i: int|
                        0 <= i < items.len() ==> brief(#[trigger] items[i])) ==> sent is Ok
                },
                NodeModel::Grid { id, columns, square, cells } => {
                    &&& cells.len() > 255 ==> sent == too_many
                    &&& cells.len() <= 255 && (forall|i: int|
                        0 <= i < cells.len() ==> brief((#[trigger] cells[i]).label)) ==> sent is Ok
                },
                NodeModel::Rows { id, rows } => {
                    &&& rows.len() > 255 ==> sent == too_many
                    &&& rows.len() <= 255 && (forall|i: int|
                        0 <= i < rows.len() ==> brief((#[trigger] rows[i]).title) && brief(
                            rows[i].summary,
                        ) && (rows[i].trailing is Some ==> brief(rows[i].trailing->0)))
                        ==> sent is Ok
                },
                NodeModel::TileGrid { id, tiles, shape } => {
                    &&& tiles.len() > 255 ==> sent == too_many
                    &&& tiles.len() <= 255 && (forall|i: int|
                        0 <= i < tiles.len() ==> brief((#[trigger] tiles[i]).label) && brief(
                            tiles[i].badge,
                        ) && brief(tiles[i].subtitle)) ==> sent is Ok
                },
                NodeModel::Choice { id, prompt, options, selected, freeform } => {
                    &&& options.len() > 255 ==> sent == too_many
                    &&& options.len() <= 255 && brief(prompt) && (freeform is Some ==> brief(
                        freeform->0.placeholder,
                    )) && (forall|i: int|
                        0 <= i < options.len() ==> brief((#[trigger] options[i]).label))
                        ==> sent is Ok
                },
                NodeModel::Table { id, rows, weights } => {
                    &&& rows.len() > 255 || weights.len() > 255 ==> sent == too_many
                },
                _ => true,
            }
        }),
{
    reveal(leaf::leaf_grown);
    match node {
        NodeModel::PagedList { id, page, items } => if items.len() <= 512 && (forall|i: int|
            0 <= i < items.len() ==> brief(#[trigger] items[i])) {
            lemma_all_grow::<String>(items, 9, 4_098);
        },
        NodeModel::Grid { id, columns, square, cells } => if cells.len() <= 255 && (forall|i: int|
            0 <= i < cells.len() ==> brief((#[trigger] cells[i]).label)) {
            lemma_all_grow::<Cell>(cells, 8, 4_104);
        },
        NodeModel::Rows { id, rows } => if rows.len() <= 255 && (forall|i: int|
            0 <= i < rows.len() ==> brief((#[trigger] rows[i]).title) && brief(rows[i].summary) && (
            rows[i].trailing is Some ==> brief(rows[i].trailing->0))) {
            lemma_all_grow::<Row>(rows, 6, 12_320);
        },
        NodeModel::TileGrid { id, tiles, shape } => if tiles.len() <= 255 && (forall|i: int|
            0 <= i < tiles.len() ==> brief((#[trigger] tiles[i]).label) && brief(tiles[i].badge)
                && brief(tiles[i].subtitle)) {
            lemma_all_grow::<Tile>(tiles, 7, 12_313);
        },
        NodeModel::Choice { id, prompt, options, selected, freeform } => if options.len() <= 255
            && brief(prompt) && (freeform is Some ==> brief(freeform->0.placeholder)) && (
        forall|i: int| 0 <= i < options.len() ==> brief((#[trigger] options[i]).label)) {
            assert forall|i: int| 0 <= i < options.len() implies BarAction::bytes(
                #[trigger] options[i],
            ).len() <= 4_104 by {
                assert(brief(options[i].label));
                lemma_bar_action_grows(options[i]);
            }
            lemma_all_grow::<BarAction>(options, 8 + 2 + wire::utf8_len(prompt), 4_104);
        },
        _ => {},
    }
}

/// A terminal can be sent up to its last row and the last column of each, and no
/// further.
pub proof fn law_terminals_are_sent(node: NodeModel)
    requires
        node is Terminal,
        forall|i: int|
            0 <= i < node->Terminal_rows.len() ==> sending::short(
                #[trigger] node->Terminal_rows[i],
            ),
    ensures
        leaf::leaf_grown(node) is Ok <==> node->Terminal_rows.len() <= 64 && forall|i: int|
            0 <= i < node->Terminal_rows.len() ==> (#[trigger] node->Terminal_rows[i]).len() <= 160,
        node->Terminal_rows.len() > 64 ==> leaf::leaf_grown(node) == Err::<int, _>(
            ProtocolError::TooManyNodes,
        ),
{
    reveal(leaf::leaf_grown);
    if node->Terminal_rows.len() <= 64 {
        lemma_rows_grow(node->Terminal_rows, 6);
    }
}

proof fn lemma_rows_grow(rows: Seq<Seq<char>>, total: int)
    requires
        0 <= total,
        total + rows.len() * 16_386 <= MAX_FRAME_LEN - 5,
        forall|i: int| 0 <= i < rows.len() ==> sending::short(#[trigger] rows[i]),
    ensures
        lists::grown_by_rows(rows, Ok(total)) is Ok <==> forall|i: int|
            0 <= i < rows.len() ==> (#[trigger] rows[i]).len() <= 160,
        lists::grown_by_rows(rows, Ok(total)) is Ok ==> lists::grown_by_rows(rows, Ok(total))->Ok_0
            <= total + rows.len() * 16_386,
    decreases rows.len(),
{
    if rows.len() > 0 {
        assert(sending::short(rows[0]));
        let rest = rows.drop_first();
        lemma_rows_grow(rest, total + 2 + wire::utf8_len(rows[0]));
        if forall|i: int| 0 <= i < rest.len() ==> (#[trigger] rest[i]).len() <= 160 {
            assert forall|i: int| 0 < i < rows.len() implies (#[trigger] rows[i]).len() <= 160 by {
                assert(rest[i - 1] == rows[i]);
            }
        }
        if forall|i: int| 0 <= i < rows.len() ==> (#[trigger] rows[i]).len() <= 160 {
            assert forall|i: int| 0 <= i < rest.len() implies (#[trigger] rest[i]).len() <= 160 by {
                assert(rest[i] == rows[i + 1]);
            }
        }
    }
}

// ---------------------------------------------------------------------------
// Trees.

/// A node is counted only down to the depth and up to the number that a screen
/// may have: past the one it is too deep, past the other it is one too many.
pub proof fn law_nodes_are_counted(node: NodeModel, depth: int, count: int)
    ensures
        depth > 16 ==> node::size_node(node, depth, count) == Err::<(int, int), _>(
            ProtocolError::TooDeep,
        ),
        depth <= 16 && count >= 512 ==> node::size_node(node, depth, count) == Err::<(int, int), _>(
            ProtocolError::TooManyNodes,
        ),
        depth <= 16 && count < 512 && !(node is Card) && !(node is Band) ==> {
            &&& node::size_node(node, depth, count) is Ok <==> leaf::leaf_grown(node) is Ok
            &&& node::size_node(node, depth, count) is Ok ==> node::size_node(
                node,
                depth,
                count,
            )->Ok_0.1 == count + 1
        },
        depth <= 16 && count < 512 && node is Card && node->Card_children.len() == 0
            ==> node::size_node(node, depth, count) is Ok,
        depth == 16 && count < 512 && node is Card && 0 < node->Card_children.len() <= 512
            ==> node::size_node(node, depth, count) == Err::<(int, int), _>(
            ProtocolError::TooDeep,
        ),
{
    reveal_with_fuel(node::size_node, 3);
    reveal_with_fuel(node::size_nodes, 3);
}

/// Leaves side by side are all counted, as long as there is room for their number
/// and their bytes.
pub proof fn law_leaves_are_counted_together(
    nodes: Seq<NodeModel>,
    depth: int,
    count: int,
    total: int,
    most: int,
)
    requires
        depth <= 16,
        0 <= count,
        count + nodes.len() <= 512,
        0 <= most,
        0 <= total,
        total + nodes.len() * most <= MAX_FRAME_LEN,
        forall|i: int|
            0 <= i < nodes.len() ==> !(#[trigger] nodes[i] is Card) && !(nodes[i] is Band)
                && leaf::leaf_grown(nodes[i]) is Ok && 0 <= leaf::leaf_grown(nodes[i])->Ok_0
                <= most,
    ensures
        node::size_nodes(nodes, depth, count, total) is Ok,
        node::size_nodes(nodes, depth, count, total)->Ok_0.1 == count + nodes.len(),
        node::size_nodes(nodes, depth, count, total)->Ok_0.0 <= total + nodes.len() * most,
    decreases nodes.len(),
{
    reveal_with_fuel(node::size_node, 2);
    reveal_with_fuel(node::size_nodes, 2);
    if nodes.len() > 0 {
        let rest = nodes.skip(1);
        assert(nodes.len() * most == rest.len() * most + most) by (nonlinear_arith)
            requires
                nodes.len() == rest.len() + 1,
        ;
        assert(0 <= rest.len() * most) by (nonlinear_arith)
            requires
                0 <= most,
        ;
        assert(!(nodes[0] is Card));
        assert forall|i: int| 0 <= i < rest.len() implies !(#[trigger] rest[i] is Card) && !(rest[i]
            is Band) && leaf::leaf_grown(rest[i]) is Ok && 0 <= leaf::leaf_grown(rest[i])->Ok_0
            <= most by {
            assert(rest[i] == nodes[i + 1]);
        }
        law_leaves_are_counted_together(
            rest,
            depth,
            count + 1,
            total + leaf::leaf_grown(nodes[0])->Ok_0,
            most,
        );
    }
}

proof fn lemma_count_grows(nodes: Seq<NodeModel>, depth: int, count: int, total: int)
    ensures
        node::size_nodes(nodes, depth, count, total) is Ok ==> node::size_nodes(
            nodes,
            depth,
            count,
            total,
        )->Ok_0.1 >= count + nodes.len(),
    decreases nodes, 1int,
{
    if nodes.len() > 0 {
        lemma_node_counts(nodes[0], depth, count);
        if let Ok((length, now)) = node::size_node(nodes[0], depth, count) {
            if let Ok(grown) = wire::grown(Ok(total), length) {
                lemma_count_grows(nodes.skip(1), depth, now, grown);
            }
        }
    }
}

proof fn lemma_node_counts(node: NodeModel, depth: int, count: int)
    ensures
        node::size_node(node, depth, count) is Ok ==> node::size_node(node, depth, count)->Ok_0.1
            >= count + 1,
    decreases node, 0int,
{
    if depth <= MAX_DEPTH && count < MAX_NODES {
        match node {
            NodeModel::Card { id, children } => {
                lemma_count_grows(children, depth + 1, count + 1, 7);
            },
            NodeModel::Band { id, align, slots } => {
                lemma_slots_count(slots, MAX_BAND_SLOTS as nat, depth + 1, count + 1, 7);
            },
            _ => {},
        }
    }
}

proof fn lemma_slots_count(
    slots: Seq<BandSlotModel>,
    limit: nat,
    depth: int,
    count: int,
    total: int,
)
    ensures
        node::size_slots(slots, limit, depth, count, total) is Ok ==> node::size_slots(
            slots,
            limit,
            depth,
            count,
            total,
        )->Ok_0.1 >= count,
    decreases slots, 2int,
{
    if slots.len() > 0 && limit > 0 {
        let slot = slots[0];
        if let Ok(headed) = node::slot_head(slot.width, total) {
            lemma_count_grows(slot.nodes, depth, count, headed);
        }
        if let Ok((grown, now)) = node::size_slot(slot, depth, count, total) {
            lemma_slots_count(slots.skip(1), (limit - 1) as nat, depth, now, grown);
        }
    }
}

/// No screen goes that has more nodes than a screen may have, on the page or
/// anywhere in it.
pub proof fn law_screens_hold_so_many_nodes(screen: ScreenModel)
    ensures
        screen.nodes.len() > 512 ==> screen::size_screen(screen, 0, 0) is Err,
        screen.overlay is Some && screen.nodes.len() + screen.overlay->0.nodes.len() > 512
            ==> screen::size_screen(screen, 0, 0) is Err,
{
    if let Ok(total) = screen::frame_of_screen_len(screen) {
        lemma_count_grows(screen.nodes, 0, 0, total);
        if let Ok((now, count)) = node::size_nodes(screen.nodes, 0, 0, total) {
            reveal(screen::size_overlay);
            if let Some(overlay) = screen.overlay {
                let flagged = wire::grown(Ok(now), 1);
                let head = wire::grown(flagged, 7);
                let placed = if overlay.kind is Popover {
                    wire::grown(head, 4)
                } else {
                    head
                };
                if let Ok(titled) = wire::grown_text(placed, overlay.title) {
                    lemma_count_grows(overlay.nodes, 0, count, titled);
                    if overlay.nodes.len() > 0 {
                        lemma_last_is_counted(overlay.nodes, 0, count, titled);
                    }
                }
            }
        }
    }
}

proof fn lemma_last_is_counted(nodes: Seq<NodeModel>, depth: int, count: int, total: int)
    requires
        nodes.len() > 0,
        count >= 0,
    ensures
        node::size_nodes(nodes, depth, count, total) is Ok ==> count + nodes.len() <= MAX_NODES,
    decreases nodes.len(),
{
    lemma_node_counts(nodes[0], depth, count);
    if nodes.len() > 1 {
        if let Ok((length, now)) = node::size_node(nodes[0], depth, count) {
            if let Ok(grown) = wire::grown(Ok(total), length) {
                lemma_last_is_counted(nodes.skip(1), depth, now, grown);
            }
        }
    }
}

/// Only the first three columns of a band go: the rest neither counts nor is
/// refused.
pub proof fn law_bands_have_three_columns(
    slots: Seq<BandSlotModel>,
    more: Seq<BandSlotModel>,
    depth: int,
    count: int,
    total: int,
)
    requires
        slots.len() == 3,
    ensures
        node::size_slots(slots + more, MAX_BAND_SLOTS as nat, depth, count, total)
            == node::size_slots(slots, MAX_BAND_SLOTS as nat, depth, count, total),
        node::slots_bytes(slots + more, MAX_BAND_SLOTS as nat) == node::slots_bytes(
            slots,
            MAX_BAND_SLOTS as nat,
        ),
        node::slots_refusal(slots + more, MAX_BAND_SLOTS as nat) == node::slots_refusal(
            slots,
            MAX_BAND_SLOTS as nat,
        ),
        node::drawn_slots(slots + more) == 3,
        node::drawn_slots(slots) == 3,
{
    let all = slots + more;
    reveal_with_fuel(node::size_slots, 5);
    reveal_with_fuel(node::slots_bytes, 5);
    reveal_with_fuel(node::slots_refusal, 5);
    assert(all[0] == slots[0]);
    assert(all.skip(1)[0] == slots.skip(1)[0]);
    assert(all.skip(1).skip(1)[0] == slots.skip(1).skip(1)[0]);
}

// ---------------------------------------------------------------------------
// Bars.

/// A bar at the bottom needs two places or more and takes as many as a byte can
/// count; a place past what a byte can say is none.
pub proof fn law_nav_bars_are_sent(bar: NavBarModel)
    ensures
        bar.destinations.len() < 2 ==> screen::nav_bar_refusal(Some(bar)) is Some,
        bar.destinations.len() >= 2 && (bar.selected is Some ==> bar.selected->0 <= 255)
            ==> screen::nav_bar_refusal(Some(bar)) is None,
        bar.selected is Some && bar.selected->0 > 255 ==> screen::nav_bar_refusal(Some(bar))
            is Some,
        screen::nav_bar_refusal(None) is None,
        bar.destinations.len() > 255 ==> screen::grown_by_nav_bar(Ok(0), Some(bar)) is Err,
        bar.destinations.len() <= 255 && (forall|i: int|
            0 <= i < bar.destinations.len() ==> brief((#[trigger] bar.destinations[i]).label))
            ==> screen::grown_by_nav_bar(Ok(0), Some(bar)) is Ok,
{
    reveal(screen::grown_by_nav_bar);
    if bar.destinations.len() <= 255 && (forall|i: int|
        0 <= i < bar.destinations.len() ==> brief((#[trigger] bar.destinations[i]).label)) {
        assert forall|i: int| 0 <= i < bar.destinations.len() implies BarAction::bytes(
            #[trigger] bar.destinations[i],
        ).len() <= 4_104 by {
            assert(brief(bar.destinations[i].label));
            lemma_bar_action_grows(bar.destinations[i]);
        }
        lemma_all_grow::<BarAction>(bar.destinations, 6, 4_104);
    }
}

/// Only the first two controls of the bar at the top go.
pub proof fn law_top_bars_have_two_controls(bar: crate::ui::TopBarModel)
    ensures
        bar.actions.len() <= 2 ==> screen::bar_actions(bar) == bar.actions,
        bar.actions.len() > 2 ==> screen::bar_actions(bar).len() == 2 && screen::bar_actions(bar)[0]
            == bar.actions[0] && screen::bar_actions(bar)[1] == bar.actions[1],
{
}

/// A control pinned to the bottom goes exactly when no bar has claimed its place.
pub proof fn law_a_bar_claims_the_bottom(bottom: crate::ui::BottomActionModel)
    ensures
        screen::bottom_bytes(Some(bottom), false) == screen::bottom_bytes(None, true),
        screen::bottom_bytes(Some(bottom), true).len() > screen::bottom_bytes(None, true).len(),
{
    broadcast use wire::group_lengths;

    reveal(screen::bottom_bytes);
}

// ---------------------------------------------------------------------------
// What arrives unchanged.

/// Whether an action is one of an application's own.
pub open spec fn own(action: ActionId) -> bool {
    action.0 != 4_294_967_295
}

/// A node within these bounds says nothing that the wire would drop, clip or
/// refuse.
pub proof fn law_nodes_within_bounds_arrive(node: NodeModel)
    ensures
        match node {
            NodeModel::Heading { .. } => leaf::leaf_faithful(node),
            NodeModel::Secondary { .. } => leaf::leaf_faithful(node),
            NodeModel::Section { .. } => leaf::leaf_faithful(node),
            NodeModel::Button { .. } => leaf::leaf_faithful(node),
            NodeModel::Divider { .. } => leaf::leaf_faithful(node),
            NodeModel::Flex { .. } => leaf::leaf_faithful(node),
            NodeModel::Spacer { .. } => leaf::leaf_faithful(node),
            NodeModel::PagedList { .. } => leaf::leaf_faithful(node),
            NodeModel::Picture { .. } => leaf::leaf_faithful(node),
            NodeModel::Table { .. } => leaf::leaf_faithful(node),
            NodeModel::Banner { .. } => leaf::leaf_faithful(node),
            NodeModel::Skeleton { .. } => leaf::leaf_faithful(node),
            NodeModel::Splash { .. } => leaf::leaf_faithful(node),
            NodeModel::Terminal { .. } => leaf::leaf_faithful(node),
            NodeModel::Quote { id, depth, role, text, fold } => depth <= 6 ==> leaf::leaf_faithful(
                node,
            ),
            NodeModel::Progress { id, value } => value.value <= 100 ==> leaf::leaf_faithful(node),
            NodeModel::Field { id, action, value, placeholder, clear } => own(action) && (clear
                is Some ==> own(clear->0)) ==> leaf::leaf_faithful(node),
            NodeModel::Text { id, text, links } => links.len() <= 32 && prose::links_land(
                links,
                text,
            ) ==> leaf::leaf_faithful(node),
            NodeModel::Facts { id, entries } => entries.len() <= 24 ==> leaf::leaf_faithful(node),
            NodeModel::Chips { id, chips } => chips.len() <= 24 && (forall|i: int|
                0 <= i < chips.len() ==> own((#[trigger] chips[i]).action)) ==> leaf::leaf_faithful(
                node,
            ),
            NodeModel::Tabs { id, tabs, selected } => 0 < tabs.len() <= 4 && selected < tabs.len()
                && (forall|i: int|
                0 <= i < tabs.len() ==> own((#[trigger] tabs[i]).action) && !tabs[i].selected)
                ==> leaf::leaf_faithful(node),
            NodeModel::Grid { id, columns, square, cells } => 1 <= columns <= 12 && cells.len()
                <= 128 && (forall|i: int|
                0 <= i < cells.len() ==> own((#[trigger] cells[i]).action)) ==> leaf::leaf_faithful(
                node,
            ),
            NodeModel::Rows { id, rows } => (forall|i: int|
                0 <= i < rows.len() ==> own((#[trigger] rows[i]).action) && (rows[i].menu is Some
                    ==> own(rows[i].menu->0))) ==> leaf::leaf_faithful(node),
            NodeModel::TileGrid { id, tiles, shape } => (forall|i: int|
                0 <= i < tiles.len() ==> own((#[trigger] tiles[i]).action)) ==> leaf::leaf_faithful(
                node,
            ),
            NodeModel::Stepper { id, label, less, more, less_state, more_state, fill } => own(
                less.action,
            ) && own(more.action) && (fill is Some ==> fill->0 <= 100) ==> leaf::leaf_faithful(
                node,
            ),
            NodeModel::Choice { id, prompt, options, selected, freeform } => (options.len() > 0
                || freeform is Some) && (selected is Some ==> selected->0 < options.len()) && (
            freeform is Some ==> own(freeform->0.action)) && (forall|i: int|
                0 <= i < options.len() ==> own((#[trigger] options[i]).action))
                ==> leaf::leaf_faithful(node),
            NodeModel::Activity { id, label, progress, cancel, transferred, failure } => (progress
                is Some ==> progress->0.value <= 100) && (cancel is Some ==> own(
                cancel->0.action,
            )) ==> leaf::leaf_faithful(node),
            _ => true,
        },
{
    reveal(leaf::leaf_faithful);
}

/// A tree is refused exactly for what one of its leaves is refused for, and a
/// leaf only where a span or a formula of it is no run of its text.
pub proof fn law_only_stray_runs_are_refused(node: NodeModel)
    ensures
        !(node is RichText) && !(node is Card) && !(node is Band) ==> node::node_refusal(node)
            is None,
        node matches NodeModel::RichText {
            id,
            text,
            spans,
            links,
            presentation,
            selection,
            formulae,
        } ==> {
            &&& (exists|i: int|
                0 <= i < spans.len() && !prose::is_run(
                    text,
                    (#[trigger] spans[i]).start as int,
                    spans[i].end as int,
                )) ==> node::node_refusal(node) is Some
            &&& (forall|i: int|
                0 <= i < spans.len() ==> prose::is_run(
                    text,
                    (#[trigger] spans[i]).start as int,
                    spans[i].end as int,
                )) && (forall|i: int|
                0 <= i < formulae.len() ==> prose::is_run(
                    text,
                    (#[trigger] formulae[i]).start as int,
                    formulae[i].end as int,
                )) ==> node::node_refusal(node) is None
        },
{
    if let NodeModel::RichText { id, text, spans, links, presentation, selection, formulae } =
        node {
        let drawn = prose::at_most(formulae, MAX_INLINE_FORMULAE as int);
        assert(forall|i: int| 0 <= i < drawn.len() ==> #[trigger] drawn[i] == formulae[i]);
    }
}

} // verus!
