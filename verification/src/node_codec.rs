//! Counting, writing and reading a tree of nodes.

use vstd::prelude::*;

use crate::error::ProtocolError;
use crate::leaf;
use crate::leaf_codec;
use crate::leaf_codec::{leaf_len, read_leaf, write_leaf};
use crate::limits::{MAX_BAND_SLOTS, MAX_DEPTH, MAX_FRAME_LEN, MAX_NODES};
use crate::node;
use crate::ui;
use crate::ui::{BandAlign, BandSlot, Node, NodeId, NodeModel, BandSlotModel, SlotWidth};
use crate::wire;
use crate::wire::{add_encoded_len, push_u16, push_u32, push_u8, Reader};

verus! {

/// Whether a count of bytes and nodes came out as its model says.
pub open spec fn measures(
    result: Result<usize, ProtocolError>,
    count: usize,
    expected: Result<(int, int), ProtocolError>,
) -> bool {
    match (result, expected) {
        (Ok(length), Ok((model, nodes))) => length == model && length <= MAX_FRAME_LEN && count
            == nodes && count <= MAX_NODES,
        (Err(error), Err(refusal)) => error == refusal,
        _ => false,
    }
}

/// The length of a node on the wire, counting it and every node inside it.
pub fn node_len(node: &Node, depth: usize, count: &mut usize) -> (result: Result<
    usize,
    ProtocolError,
>)
    requires
        *old(count) <= MAX_NODES,
    ensures
        measures(result, *final(count), node::size_node(node@, depth as int, *old(count) as int)),
    decreases node,
{
    if depth > MAX_DEPTH {
        return Err(ProtocolError::TooDeep);
    }
    if *count >= MAX_NODES {
        return Err(ProtocolError::TooManyNodes);
    }
    *count = *count + 1;
    match node {
        Node::Card { id: _, children } => {
            if children.len() > MAX_NODES {
                return Err(ProtocolError::TooManyNodes);
            }
            nodes_len(children, depth + 1, count, 7)
        },
        Node::Band { id: _, align: _, slots } => slots_len(slots, depth + 1, count, 7),
        _ => leaf_len(node),
    }
}

/// A running length after a run of nodes.
pub fn nodes_len(nodes: &Vec<Node>, depth: usize, count: &mut usize, total: usize) -> (result:
    Result<usize, ProtocolError>)
    requires
        *old(count) <= MAX_NODES,
        total <= MAX_FRAME_LEN,
    ensures
        measures(
            result,
            *final(count),
            node::size_nodes(
                ui::node_models(nodes@),
                depth as int,
                *old(count) as int,
                total as int,
            ),
        ),
    decreases nodes,
{
    let ghost list = ui::node_models(nodes@);
    let ghost start = total as int;
    let ghost expected = node::size_nodes(list, depth as int, *count as int, start);
    let mut so_far: usize = total;
    let mut index: usize = 0;
    assert(list.skip(0) =~= list);
    while index < nodes.len()
        invariant
            index <= nodes@.len(),
            list == ui::node_models(nodes@),
            so_far <= MAX_FRAME_LEN,
            *count <= MAX_NODES,
            start == total,
            expected == node::size_nodes(list, depth as int, *old(count) as int, start),
            expected == node::size_nodes(
                list.skip(index as int),
                depth as int,
                *count as int,
                so_far as int,
            ),
        decreases nodes@.len() - index,
    {
        assert(list.skip(index as int)[0] == nodes@[index as int]@);
        assert(list.skip(index as int).skip(1) =~= list.skip(index + 1));
        let length: usize = node_len(&nodes[index], depth, count)?;
        so_far = add_encoded_len(so_far, length)?;
        index = index + 1;
    }
    Ok(so_far)
}

fn slots_len(slots: &Vec<BandSlot>, depth: usize, count: &mut usize, total: usize) -> (result:
    Result<usize, ProtocolError>)
    requires
        *old(count) <= MAX_NODES,
        total <= MAX_FRAME_LEN,
    ensures
        measures(
            result,
            *final(count),
            node::size_slots(
                ui::slot_models(slots@),
                MAX_BAND_SLOTS as nat,
                depth as int,
                *old(count) as int,
                total as int,
            ),
        ),
    decreases slots,
{
    let ghost list = ui::slot_models(slots@);
    let ghost start = total as int;
    let ghost limit = MAX_BAND_SLOTS as nat;
    let ghost expected = node::size_slots(list, limit, depth as int, *count as int, start);
    let mut so_far: usize = total;
    let mut index: usize = 0;
    assert(list.skip(0) =~= list);
    while index < slots.len() && index < MAX_BAND_SLOTS
        invariant
            index <= slots@.len(),
            index <= MAX_BAND_SLOTS,
            limit == MAX_BAND_SLOTS,
            list == ui::slot_models(slots@),
            so_far <= MAX_FRAME_LEN,
            *count <= MAX_NODES,
            start == total,
            expected == node::size_slots(list, limit, depth as int, *old(count) as int, start),
            expected == node::size_slots(
                list.skip(index as int),
                (limit - index) as nat,
                depth as int,
                *count as int,
                so_far as int,
            ),
        decreases slots@.len() - index,
    {
        assert(list.skip(index as int)[0] == slots@[index as int]@);
        assert(list.skip(index as int).skip(1) =~= list.skip(index + 1));
        let slot = &slots[index];
        assert(node::size_slot(slot@, depth as int, *count as int, so_far as int)
            == match node::slot_head(slot.width, so_far as int) {
            Err(e) => Err(e),
            Ok(total) => node::size_nodes(slot@.nodes, depth as int, *count as int, total),
        });
        so_far = add_encoded_len(so_far, 1)?;
        match slot.width {
            SlotWidth::Fixed(_) => {
                so_far = add_encoded_len(so_far, 2)?;
            },
            _ => {},
        }
        so_far = add_encoded_len(so_far, 2)?;
        so_far = nodes_len(&slot.nodes, depth, count, so_far)?;
        index = index + 1;
    }
    Ok(so_far)
}

/// The tag a node is written with.
fn tag_of(node: &Node) -> (tag: u8)
    ensures
        tag == leaf::node_tag(node@),
{
    match node {
        Node::Heading { .. } => 1,
        Node::Text { .. } => 2,
        Node::Button { .. } => 3,
        Node::Card { .. } => 4,
        Node::Divider { .. } => 5,
        Node::Spacer { .. } => 6,
        Node::Progress { .. } => 7,
        Node::PagedList { .. } => 8,
        Node::TileGrid { .. } => 9,
        Node::Choice { .. } => 10,
        Node::Banner { .. } => 11,
        Node::Skeleton { .. } => 12,
        Node::Activity { .. } => 13,
        Node::Rows { .. } => 14,
        Node::Grid { .. } => 15,
        Node::Terminal { .. } => 16,
        Node::Picture { .. } => 17,
        Node::Quote { .. } => 18,
        Node::Secondary { .. } => 19,
        Node::Splash { .. } => 20,
        Node::Section { .. } => 21,
        Node::Band { .. } => 22,
        Node::Facts { .. } => 23,
        Node::Field { .. } => 24,
        Node::Chips { .. } => 25,
        Node::Tabs { .. } => 26,
        Node::Flex { .. } => 27,
        Node::RichText { .. } => 28,
        Node::Stepper { .. } => 29,
        Node::Table { .. } => 30,
    }
}

/// The identifier of a node.
fn id_of(node: &Node) -> (id: NodeId)
    ensures
        id == leaf::node_id(node@),
{
    match node {
        Node::Heading { id, .. } => *id,
        Node::Text { id, .. } => *id,
        Node::Button { id, .. } => *id,
        Node::Card { id, .. } => *id,
        Node::Divider { id, .. } => *id,
        Node::Spacer { id, .. } => *id,
        Node::Progress { id, .. } => *id,
        Node::PagedList { id, .. } => *id,
        Node::TileGrid { id, .. } => *id,
        Node::Choice { id, .. } => *id,
        Node::Banner { id, .. } => *id,
        Node::Skeleton { id, .. } => *id,
        Node::Activity { id, .. } => *id,
        Node::Rows { id, .. } => *id,
        Node::Grid { id, .. } => *id,
        Node::Terminal { id, .. } => *id,
        Node::Picture { id, .. } => *id,
        Node::Quote { id, .. } => *id,
        Node::Secondary { id, .. } => *id,
        Node::Splash { id, .. } => *id,
        Node::Section { id, .. } => *id,
        Node::Band { id, .. } => *id,
        Node::Facts { id, .. } => *id,
        Node::Field { id, .. } => *id,
        Node::Chips { id, .. } => *id,
        Node::Tabs { id, .. } => *id,
        Node::Flex { id, .. } => *id,
        Node::RichText { id, .. } => *id,
        Node::Stepper { id, .. } => *id,
        Node::Table { id, .. } => *id,
    }
}

/// Writes a node and everything inside it.
pub fn write_node(output: &mut Vec<u8>, node: &Node) -> (result: Result<(), ProtocolError>)
    requires
        node::node_fits(node@),
    ensures
        leaf_codec::writes(
            result,
            old(output)@,
            final(output)@,
            node::node_refusal(node@),
            node::node_bytes(node@),
        ),
    decreases node,
{
    broadcast use wire::group_writing;

    push_u8(output, tag_of(node));
    push_u32(output, id_of(node).0);
    match node {
        Node::Card { id: _, children } => {
            push_u16(output, children.len() as u16);
            write_nodes(output, children)
        },
        Node::Band { id: _, align, slots } => {
            push_u8(
                output,
                match align {
                    BandAlign::Top => 0,
                    BandAlign::Middle => 1,
                    BandAlign::Bottom => 2,
                },
            );
            let drawn: usize = if slots.len() <= MAX_BAND_SLOTS {
                slots.len()
            } else {
                MAX_BAND_SLOTS
            };
            push_u8(output, drawn as u8);
            write_slots(output, slots)
        },
        _ => write_leaf(output, node),
    }
}

pub fn write_nodes(output: &mut Vec<u8>, nodes: &Vec<Node>) -> (result: Result<(), ProtocolError>)
    requires
        node::nodes_fit(ui::node_models(nodes@)),
    ensures
        leaf_codec::writes(
            result,
            old(output)@,
            final(output)@,
            node::nodes_refusal(ui::node_models(nodes@)),
            node::nodes_bytes(ui::node_models(nodes@)),
        ),
    decreases nodes,
{
    let ghost list = ui::node_models(nodes@);
    let ghost before = output@;
    let mut index: usize = 0;
    assert(list.skip(0) =~= list);
    while index < nodes.len()
        invariant
            index <= nodes@.len(),
            list == ui::node_models(nodes@),
            node::nodes_fit(list.skip(index as int)),
            node::nodes_refusal(list) == node::nodes_refusal(list.skip(index as int)),
            before + node::nodes_bytes(list) == output@ + node::nodes_bytes(
                list.skip(index as int),
            ),
        decreases nodes@.len() - index,
    {
        broadcast use wire::group_writing;

        let ghost so_far = output@;
        assert(list.skip(index as int)[0] == nodes@[index as int]@);
        assert(list.skip(index as int).skip(1) =~= list.skip(index + 1));
        write_node(output, &nodes[index])?;
        index = index + 1;
    }
    assert(output@ + node::nodes_bytes(list.skip(index as int)) =~= output@);
    Ok(())
}

fn write_slots(output: &mut Vec<u8>, slots: &Vec<BandSlot>) -> (result: Result<(), ProtocolError>)
    requires
        node::slots_fit(ui::slot_models(slots@), MAX_BAND_SLOTS as nat),
    ensures
        leaf_codec::writes(
            result,
            old(output)@,
            final(output)@,
            node::slots_refusal(ui::slot_models(slots@), MAX_BAND_SLOTS as nat),
            node::slots_bytes(ui::slot_models(slots@), MAX_BAND_SLOTS as nat),
        ),
    decreases slots,
{
    let ghost list = ui::slot_models(slots@);
    let ghost limit = MAX_BAND_SLOTS as nat;
    let ghost before = output@;
    let mut index: usize = 0;
    assert(list.skip(0) =~= list);
    while index < slots.len() && index < MAX_BAND_SLOTS
        invariant
            index <= slots@.len(),
            index <= MAX_BAND_SLOTS,
            limit == MAX_BAND_SLOTS,
            list == ui::slot_models(slots@),
            node::slots_fit(list.skip(index as int), (limit - index) as nat),
            node::slots_refusal(list, limit) == node::slots_refusal(
                list.skip(index as int),
                (limit - index) as nat,
            ),
            before + node::slots_bytes(list, limit) == output@ + node::slots_bytes(
                list.skip(index as int),
                (limit - index) as nat,
            ),
        decreases slots@.len() - index,
    {
        broadcast use wire::group_writing;

        assert(list.skip(index as int)[0] == slots@[index as int]@);
        assert(list.skip(index as int).skip(1) =~= list.skip(index + 1));
        let slot = &slots[index];
        assert(node::slot_fits(slot@));
        assert(node::slots_refusal(list, limit) == match node::slot_refusal(slot@) {
            Some(e) => Some(e),
            None => node::slots_refusal(list.skip(index + 1), (limit - index - 1) as nat),
        });
        assert(node::slots_bytes(list.skip(index as int), (limit - index) as nat)
            == node::slot_bytes(slot@) + node::slots_bytes(
            list.skip(index + 1),
            (limit - index - 1) as nat,
        ));
        match slot.width {
            SlotWidth::Natural => push_u8(output, 0),
            SlotWidth::Fill => push_u8(output, 1),
            SlotWidth::Fixed(tenths) => {
                push_u8(output, 2);
                push_u16(output, tenths);
            },
        }
        push_u16(output, slot.nodes.len() as u16);
        write_nodes(output, &slot.nodes)?;
        index = index + 1;
    }
    assert(output@ + node::slots_bytes(list.skip(index as int), (limit - index) as nat)
        =~= output@);
    Ok(())
}

/// Whether reading with a running count of nodes did what its model says.
pub open spec fn reads_counted<T: View>(
    result: Result<T, ProtocolError>,
    count: usize,
    left: Seq<u8>,
    parsed: wire::Parsed<(T::V, int)>,
) -> bool {
    match (result, parsed) {
        (Ok(value), Ok(((model, nodes), rest))) => value@ == model && count == nodes && count
            <= MAX_NODES && left == rest,
        (Err(error), Err(expected)) => error == expected,
        _ => false,
    }
}

/// The same, for a run of nodes.
pub open spec fn reads_nodes(
    result: Result<Vec<Node>, ProtocolError>,
    count: usize,
    left: Seq<u8>,
    parsed: wire::Parsed<(Seq<NodeModel>, int)>,
) -> bool {
    match (result, parsed) {
        (Ok(list), Ok(((model, nodes), rest))) => ui::node_models(list@) == model && count == nodes
            && count <= MAX_NODES && left == rest,
        (Err(error), Err(expected)) => error == expected,
        _ => false,
    }
}

/// The same, for a run of columns.
pub open spec fn reads_slots(
    result: Result<Vec<BandSlot>, ProtocolError>,
    count: usize,
    left: Seq<u8>,
    parsed: wire::Parsed<(Seq<BandSlotModel>, int)>,
) -> bool {
    match (result, parsed) {
        (Ok(list), Ok(((model, nodes), rest))) => ui::slot_models(list@) == model && count == nodes
            && count <= MAX_NODES && left == rest,
        (Err(error), Err(expected)) => error == expected,
        _ => false,
    }
}

/// Reads a node and everything inside it.
pub fn read_node(reader: &mut Reader<'_>, depth: usize, count: &mut usize) -> (result: Result<
    Node,
    ProtocolError,
>)
    requires
        *old(count) <= MAX_NODES,
        depth <= MAX_DEPTH + 1,
    ensures
        reads_counted(
            result,
            *final(count),
            final(reader)@,
            node::parse_node(old(reader)@, depth as int, *old(count) as int),
        ),
    decreases MAX_DEPTH + 1 - depth, 1nat,
{
    if depth > MAX_DEPTH {
        return Err(ProtocolError::TooDeep);
    }
    if *count >= MAX_NODES {
        return Err(ProtocolError::TooManyNodes);
    }
    *count = *count + 1;
    let tag: u8 = reader.u8()?;
    let id = NodeId(reader.u32()?);
    match tag {
        4 => {
            let children: u16 = reader.u16()?;
            if children as usize > MAX_NODES {
                return Err(ProtocolError::TooManyNodes);
            }
            let children = read_nodes(reader, children as usize, depth + 1, count)?;
            Ok(Node::Card { id, children })
        },
        22 => {
            let align: u8 = reader.u8()?;
            let align = match align {
                1 => BandAlign::Middle,
                2 => BandAlign::Bottom,
                _ => BandAlign::Top,
            };
            let slots: u8 = reader.u8()?;
            if slots as usize > MAX_BAND_SLOTS {
                return Err(ProtocolError::TooManyNodes);
            }
            let slots = read_slots(reader, slots as usize, depth + 1, count)?;
            Ok(Node::Band { id, align, slots })
        },
        _ => read_leaf(tag, id, reader),
    }
}

/// Reads a run of `wanted` nodes.
pub fn read_nodes(
    reader: &mut Reader<'_>,
    wanted: usize,
    depth: usize,
    count: &mut usize,
) -> (result: Result<Vec<Node>, ProtocolError>)
    requires
        *old(count) <= MAX_NODES,
        depth <= MAX_DEPTH + 1,
    ensures
        reads_nodes(
            result,
            *final(count),
            final(reader)@,
            node::parse_nodes(old(reader)@, wanted as nat, depth as int, *old(count) as int),
        ),
    decreases MAX_DEPTH + 1 - depth, 2nat,
{
    let mut nodes: Vec<Node> = Vec::new();
    let mut index: usize = 0;
    let ghost expected = node::parse_nodes(reader@, wanted as nat, depth as int, *count as int);
    proof {
        assert(ui::node_models(nodes@) =~= Seq::empty());
        if expected is Ok {
            assert(Seq::empty() + expected->Ok_0.0.0 =~= expected->Ok_0.0.0);
        }
    }
    while index < wanted
        invariant
            index <= wanted,
            *count <= MAX_NODES,
            depth <= MAX_DEPTH + 1,
            expected == node::parse_nodes(
                old(reader)@,
                wanted as nat,
                depth as int,
                *old(count) as int,
            ),
            expected == node::following(
                ui::node_models(nodes@),
                node::parse_nodes(reader@, (wanted - index) as nat, depth as int, *count as int),
            ),
        decreases wanted - index,
    {
        let ghost before = nodes@;
        let node = read_node(reader, depth, count)?;
        proof {
            node::lemma_following_following(
                ui::node_models(before),
                seq![node@],
                node::parse_nodes(
                    reader@,
                    (wanted - index - 1) as nat,
                    depth as int,
                    *count as int,
                ),
            );
        }
        nodes.push(node);
        assert(ui::node_models(nodes@) =~= ui::node_models(before) + seq![node@]);
        index = index + 1;
    }
    assert(ui::node_models(nodes@) + Seq::empty() =~= ui::node_models(nodes@));
    Ok(nodes)
}

fn read_slot(reader: &mut Reader<'_>, depth: usize, count: &mut usize) -> (result: Result<
    BandSlot,
    ProtocolError,
>)
    requires
        *old(count) <= MAX_NODES,
        depth <= MAX_DEPTH + 1,
    ensures
        reads_counted(
            result,
            *final(count),
            final(reader)@,
            node::parse_slot(old(reader)@, depth as int, *old(count) as int),
        ),
    decreases MAX_DEPTH + 1 - depth, 3nat,
{
    let tag: u8 = reader.u8()?;
    let width = match tag {
        0 => SlotWidth::Natural,
        2 => SlotWidth::Fixed(reader.u16()?),
        _ => SlotWidth::Fill,
    };
    let inside: u16 = reader.u16()?;
    if inside as usize > MAX_NODES {
        return Err(ProtocolError::TooManyNodes);
    }
    let nodes = read_nodes(reader, inside as usize, depth, count)?;
    Ok(BandSlot { width, nodes })
}

fn read_slots(reader: &mut Reader<'_>, wanted: usize, depth: usize, count: &mut usize) -> (result:
    Result<Vec<BandSlot>, ProtocolError>)
    requires
        *old(count) <= MAX_NODES,
        depth <= MAX_DEPTH + 1,
    ensures
        reads_slots(
            result,
            *final(count),
            final(reader)@,
            node::parse_slots(old(reader)@, wanted as nat, depth as int, *old(count) as int),
        ),
    decreases MAX_DEPTH + 1 - depth, 4nat,
{
    let mut slots: Vec<BandSlot> = Vec::new();
    let mut index: usize = 0;
    let ghost expected = node::parse_slots(reader@, wanted as nat, depth as int, *count as int);
    proof {
        assert(ui::slot_models(slots@) =~= Seq::empty());
        if expected is Ok {
            assert(Seq::empty() + expected->Ok_0.0.0 =~= expected->Ok_0.0.0);
        }
    }
    while index < wanted
        invariant
            index <= wanted,
            *count <= MAX_NODES,
            depth <= MAX_DEPTH + 1,
            expected == node::parse_slots(
                old(reader)@,
                wanted as nat,
                depth as int,
                *old(count) as int,
            ),
            expected == node::following(
                ui::slot_models(slots@),
                node::parse_slots(reader@, (wanted - index) as nat, depth as int, *count as int),
            ),
        decreases wanted - index,
    {
        let ghost before = slots@;
        let slot = read_slot(reader, depth, count)?;
        proof {
            node::lemma_following_following(
                ui::slot_models(before),
                seq![slot@],
                node::parse_slots(
                    reader@,
                    (wanted - index - 1) as nat,
                    depth as int,
                    *count as int,
                ),
            );
        }
        slots.push(slot);
        assert(ui::slot_models(slots@) =~= ui::slot_models(before) + seq![slot@]);
        index = index + 1;
    }
    assert(ui::slot_models(slots@) + Seq::empty() =~= ui::slot_models(slots@));
    Ok(slots)
}

} // verus!
