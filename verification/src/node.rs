//! What a tree of nodes takes on the wire, and that reading it gives it back.

use vstd::prelude::*;

use crate::error::ProtocolError;
use crate::leaf;
use crate::leaf_laws;
use crate::limits::{MAX_BAND_SLOTS, MAX_DEPTH, MAX_FRAME_LEN, MAX_NODES};
use crate::ui::{BandAlign, BandSlotModel, NodeId, NodeModel, SlotWidth};
use crate::wire;

verus! {

pub open spec fn align_tag(align: BandAlign) -> u8 {
    match align {
        BandAlign::Top => 0,
        BandAlign::Middle => 1,
        BandAlign::Bottom => 2,
    }
}

pub open spec fn width_bytes(width: SlotWidth) -> Seq<u8> {
    match width {
        SlotWidth::Natural => seq![0u8],
        SlotWidth::Fill => seq![1u8],
        SlotWidth::Fixed(tenths) => seq![2u8] + wire::be16(tenths),
    }
}

/// How many of a band's columns are drawn.
pub open spec fn drawn_slots(slots: Seq<BandSlotModel>) -> int {
    if slots.len() <= MAX_BAND_SLOTS {
        slots.len() as int
    } else {
        MAX_BAND_SLOTS as int
    }
}

// ---------------------------------------------------------------------------
// Bytes.

/// A node: its tag, its identifier, then what it holds.
pub open spec fn node_bytes(node: NodeModel) -> Seq<u8>
    decreases node,
{
    seq![leaf::node_tag(node)] + wire::be32(leaf::node_id(node).0) + match node {
        NodeModel::Card { id, children } => wire::be16(children.len() as u16) + nodes_bytes(
            children,
        ),
        NodeModel::Band { id, align, slots } => seq![align_tag(align)] + seq![
            drawn_slots(slots) as u8,
        ] + slots_bytes(slots, MAX_BAND_SLOTS as nat),
        _ => leaf::leaf_body(node),
    }
}

pub open spec fn nodes_bytes(nodes: Seq<NodeModel>) -> Seq<u8>
    decreases nodes,
{
    if nodes.len() == 0 {
        Seq::empty()
    } else {
        node_bytes(nodes[0]) + nodes_bytes(nodes.skip(1))
    }
}

pub open spec fn slot_bytes(slot: BandSlotModel) -> Seq<u8>
    decreases slot,
{
    width_bytes(slot.width) + wire::be16(slot.nodes.len() as u16) + nodes_bytes(slot.nodes)
}

/// The first `limit` columns.
pub open spec fn slots_bytes(slots: Seq<BandSlotModel>, limit: nat) -> Seq<u8>
    decreases slots,
{
    if slots.len() == 0 || limit == 0 {
        Seq::empty()
    } else {
        slot_bytes(slots[0]) + slots_bytes(slots.skip(1), (limit - 1) as nat)
    }
}

// ---------------------------------------------------------------------------
// Size: the length in bytes, and how many nodes have been counted so far.

/// The length of a node and the running count of nodes after it.
pub open spec fn size_node(node: NodeModel, depth: int, count: int) -> Result<
    (int, int),
    ProtocolError,
>
    decreases node,
{
    if depth > MAX_DEPTH {
        Err(ProtocolError::TooDeep)
    } else if count >= MAX_NODES {
        Err(ProtocolError::TooManyNodes)
    } else {
        match node {
            NodeModel::Card { id, children } => if children.len() > MAX_NODES {
                Err(ProtocolError::TooManyNodes)
            } else {
                size_nodes(children, depth + 1, count + 1, 7)
            },
            NodeModel::Band { id, align, slots } => size_slots(
                slots,
                MAX_BAND_SLOTS as nat,
                depth + 1,
                count + 1,
                7,
            ),
            _ => match leaf::leaf_grown(node) {
                Err(e) => Err(e),
                Ok(length) => Ok((length, count + 1)),
            },
        }
    }
}

/// A running length and count after a run of nodes.
pub open spec fn size_nodes(nodes: Seq<NodeModel>, depth: int, count: int, total: int) -> Result<
    (int, int),
    ProtocolError,
>
    decreases nodes,
{
    if nodes.len() == 0 {
        Ok((total, count))
    } else {
        match size_node(nodes[0], depth, count) {
            Err(e) => Err(e),
            Ok((length, count)) => match wire::grown(Ok(total), length) {
                Err(e) => Err(e),
                Ok(total) => size_nodes(nodes.skip(1), depth, count, total),
            },
        }
    }
}

/// The bytes of a column before its nodes.
pub open spec fn slot_head(width: SlotWidth, total: int) -> Result<int, ProtocolError> {
    let with_tag = wire::grown(Ok(total), 1);
    let with_width = if width is Fixed {
        wire::grown(with_tag, 2)
    } else {
        with_tag
    };
    wire::grown(with_width, 2)
}

pub open spec fn size_slot(slot: BandSlotModel, depth: int, count: int, total: int) -> Result<
    (int, int),
    ProtocolError,
>
    decreases slot,
{
    match slot_head(slot.width, total) {
        Err(e) => Err(e),
        Ok(total) => size_nodes(slot.nodes, depth, count, total),
    }
}

pub open spec fn size_slots(
    slots: Seq<BandSlotModel>,
    limit: nat,
    depth: int,
    count: int,
    total: int,
) -> Result<(int, int), ProtocolError>
    decreases slots,
{
    if slots.len() == 0 || limit == 0 {
        Ok((total, count))
    } else {
        match size_slot(slots[0], depth, count, total) {
            Err(e) => Err(e),
            Ok((total, count)) => size_slots(
                slots.skip(1),
                (limit - 1) as nat,
                depth,
                count,
                total,
            ),
        }
    }
}

// ---------------------------------------------------------------------------
// What can be written, and what is refused while writing.

/// Whether every text and every list of a tree has room for its length.
pub open spec fn node_fits(node: NodeModel) -> bool
    decreases node,
{
    match node {
        NodeModel::Card { id, children } => children.len() <= MAX_NODES && nodes_fit(children),
        NodeModel::Band { id, align, slots } => slots_fit(slots, MAX_BAND_SLOTS as nat),
        _ => leaf::leaf_fits(node),
    }
}

pub open spec fn nodes_fit(nodes: Seq<NodeModel>) -> bool
    decreases nodes,
{
    nodes.len() == 0 || (node_fits(nodes[0]) && nodes_fit(nodes.skip(1)))
}

pub open spec fn slot_fits(slot: BandSlotModel) -> bool
    decreases slot,
{
    slot.nodes.len() <= MAX_NODES && nodes_fit(slot.nodes)
}

pub open spec fn slots_fit(slots: Seq<BandSlotModel>, limit: nat) -> bool
    decreases slots,
{
    slots.len() == 0 || limit == 0 || (slot_fits(slots[0]) && slots_fit(
        slots.skip(1),
        (limit - 1) as nat,
    ))
}

/// The first refusal among the leaves of a tree.
pub open spec fn node_refusal(node: NodeModel) -> Option<ProtocolError>
    decreases node,
{
    match node {
        NodeModel::Card { id, children } => nodes_refusal(children),
        NodeModel::Band { id, align, slots } => slots_refusal(slots, MAX_BAND_SLOTS as nat),
        _ => leaf::leaf_refusal(node),
    }
}

pub open spec fn nodes_refusal(nodes: Seq<NodeModel>) -> Option<ProtocolError>
    decreases nodes,
{
    if nodes.len() == 0 {
        None
    } else {
        match node_refusal(nodes[0]) {
            Some(e) => Some(e),
            None => nodes_refusal(nodes.skip(1)),
        }
    }
}

pub open spec fn slot_refusal(slot: BandSlotModel) -> Option<ProtocolError>
    decreases slot,
{
    nodes_refusal(slot.nodes)
}

pub open spec fn slots_refusal(slots: Seq<BandSlotModel>, limit: nat) -> Option<ProtocolError>
    decreases slots,
{
    if slots.len() == 0 || limit == 0 {
        None
    } else {
        match slot_refusal(slots[0]) {
            Some(e) => Some(e),
            None => slots_refusal(slots.skip(1), (limit - 1) as nat),
        }
    }
}

/// Whether a tree says nothing that the wire would drop, clip or refuse.
pub open spec fn node_faithful(node: NodeModel) -> bool
    decreases node,
{
    match node {
        NodeModel::Card { id, children } => nodes_faithful(children),
        NodeModel::Band { id, align, slots } => slots.len() <= MAX_BAND_SLOTS && slots_faithful(
            slots,
        ),
        _ => leaf::leaf_faithful(node) && leaf::leaf_refusal(node) is None,
    }
}

pub open spec fn nodes_faithful(nodes: Seq<NodeModel>) -> bool
    decreases nodes,
{
    nodes.len() == 0 || (node_faithful(nodes[0]) && nodes_faithful(nodes.skip(1)))
}

pub open spec fn slot_faithful(slot: BandSlotModel) -> bool
    decreases slot,
{
    nodes_faithful(slot.nodes)
}

pub open spec fn slots_faithful(slots: Seq<BandSlotModel>) -> bool
    decreases slots,
{
    slots.len() == 0 || (slot_faithful(slots[0]) && slots_faithful(slots.skip(1)))
}

// ---------------------------------------------------------------------------
// What reading makes of bytes: the tree, and the running count of nodes.

pub open spec fn parse_align(s: Seq<u8>) -> wire::Parsed<BandAlign> {
    match wire::parse_u8(s) {
        Err(e) => Err(e),
        Ok((tag, s)) => Ok(
            (
                if tag == 1 {
                    BandAlign::Middle
                } else if tag == 2 {
                    BandAlign::Bottom
                } else {
                    BandAlign::Top
                },
                s,
            ),
        ),
    }
}

/// A width nobody knows fills the band.
pub open spec fn parse_width(s: Seq<u8>) -> wire::Parsed<SlotWidth> {
    match wire::parse_u8(s) {
        Err(e) => Err(e),
        Ok((tag, s)) => if tag == 0 {
            Ok((SlotWidth::Natural, s))
        } else if tag == 2 {
            match wire::parse_u16(s) {
                Err(e) => Err(e),
                Ok((tenths, s)) => Ok((SlotWidth::Fixed(tenths), s)),
            }
        } else {
            Ok((SlotWidth::Fill, s))
        },
    }
}

pub open spec fn parse_node(s: Seq<u8>, depth: int, count: int) -> wire::Parsed<(NodeModel, int)>
    decreases MAX_DEPTH + 1 - depth, 1nat, 0nat,
{
    if depth > MAX_DEPTH {
        Err(ProtocolError::TooDeep)
    } else if count >= MAX_NODES {
        Err(ProtocolError::TooManyNodes)
    } else {
        match wire::parse_u8(s) {
            Err(e) => Err(e),
            Ok((tag, s)) => match wire::parse_u32(s) {
                Err(e) => Err(e),
                Ok((id, s)) => if tag == 4 {
                    parse_card(NodeId(id), s, depth, count + 1)
                } else if tag == 22 {
                    parse_band(NodeId(id), s, depth, count + 1)
                } else {
                    match leaf::parse_leaf(tag, NodeId(id), s) {
                        Err(e) => Err(e),
                        Ok((node, s)) => Ok(((node, count + 1), s)),
                    }
                },
            },
        }
    }
}

/// What follows the tag and the identifier of a card at `depth`.
pub open spec fn parse_card(id: NodeId, s: Seq<u8>, depth: int, count: int) -> wire::Parsed<
    (NodeModel, int),
>
    decreases MAX_DEPTH + 1 - depth, 0nat, 0nat,
    when depth <= MAX_DEPTH
{
    match wire::parse_u16(s) {
        Err(e) => Err(e),
        Ok((children, s)) => if children > MAX_NODES {
            Err(ProtocolError::TooManyNodes)
        } else {
            match parse_nodes(s, children as nat, depth + 1, count) {
                Err(e) => Err(e),
                Ok(((children, count), s)) => Ok(((NodeModel::Card { id, children }, count), s)),
            }
        },
    }
}

/// What follows the tag and the identifier of a band at `depth`.
pub open spec fn parse_band(id: NodeId, s: Seq<u8>, depth: int, count: int) -> wire::Parsed<
    (NodeModel, int),
>
    decreases MAX_DEPTH + 1 - depth, 0nat, 0nat,
    when depth <= MAX_DEPTH
{
    match parse_align(s) {
        Err(e) => Err(e),
        Ok((align, s)) => match wire::parse_u8(s) {
            Err(e) => Err(e),
            Ok((slots, s)) => if slots > MAX_BAND_SLOTS {
                Err(ProtocolError::TooManyNodes)
            } else {
                match parse_slots(s, slots as nat, depth + 1, count) {
                    Err(e) => Err(e),
                    Ok(((slots, count), s)) => Ok(
                        ((NodeModel::Band { id, align, slots }, count), s),
                    ),
                }
            },
        },
    }
}

pub open spec fn parse_nodes(s: Seq<u8>, wanted: nat, depth: int, count: int) -> wire::Parsed<
    (Seq<NodeModel>, int),
>
    decreases MAX_DEPTH + 1 - depth, 2nat, wanted,
{
    if wanted == 0 {
        Ok(((Seq::empty(), count), s))
    } else {
        match parse_node(s, depth, count) {
            Err(e) => Err(e),
            Ok(((node, count), s)) => following(
                seq![node],
                parse_nodes(s, (wanted - 1) as nat, depth, count),
            ),
        }
    }
}

/// A parse of the rest of a run, after what was read before it.
pub open spec fn following<M>(
    before: Seq<M>,
    parsed: wire::Parsed<(Seq<M>, int)>,
) -> wire::Parsed<(Seq<M>, int)> {
    match parsed {
        Err(e) => Err(e),
        Ok(((list, count), s)) => Ok(((before + list, count), s)),
    }
}

pub open spec fn parse_slot(s: Seq<u8>, depth: int, count: int) -> wire::Parsed<
    (BandSlotModel, int),
>
    decreases MAX_DEPTH + 1 - depth, 3nat, 0nat,
{
    match parse_width(s) {
        Err(e) => Err(e),
        Ok((width, s)) => match wire::parse_u16(s) {
            Err(e) => Err(e),
            Ok((inside, s)) => if inside > MAX_NODES {
                Err(ProtocolError::TooManyNodes)
            } else {
                match parse_nodes(s, inside as nat, depth, count) {
                    Err(e) => Err(e),
                    Ok(((nodes, count), s)) => Ok(((BandSlotModel { width, nodes }, count), s)),
                }
            },
        },
    }
}

pub open spec fn parse_slots(s: Seq<u8>, wanted: nat, depth: int, count: int) -> wire::Parsed<
    (Seq<BandSlotModel>, int),
>
    decreases MAX_DEPTH + 1 - depth, 4nat, wanted,
{
    if wanted == 0 {
        Ok(((Seq::empty(), count), s))
    } else {
        match parse_slot(s, depth, count) {
            Err(e) => Err(e),
            Ok(((slot, count), s)) => following(
                seq![slot],
                parse_slots(s, (wanted - 1) as nat, depth, count),
            ),
        }
    }
}

pub proof fn lemma_following_following<M>(
    a: Seq<M>,
    b: Seq<M>,
    parsed: wire::Parsed<(Seq<M>, int)>,
)
    ensures
        following(a, following(b, parsed)) == following(a + b, parsed),
{
    if parsed is Ok {
        assert(a + (b + parsed->Ok_0.0.0) =~= (a + b) + parsed->Ok_0.0.0);
    }
}

// ---------------------------------------------------------------------------
// A tree that has a size fits, its size is its length, and its nodes are
// within the count.

pub proof fn lemma_node_counted(node: NodeModel, depth: int, count: int)
    requires
        0 <= count,
        size_node(node, depth, count) is Ok,
    ensures
        node_fits(node),
        size_node(node, depth, count)->Ok_0.0 == node_bytes(node).len(),
        count < size_node(node, depth, count)->Ok_0.1 <= MAX_NODES,
    decreases node,
{
    broadcast use wire::group_lengths;

    match node {
        NodeModel::Card { id, children } => {
            lemma_nodes_counted(children, depth + 1, count + 1, 7);
        },
        NodeModel::Band { id, align, slots } => {
            lemma_slots_counted(slots, MAX_BAND_SLOTS as nat, depth + 1, count + 1, 7);
        },
        _ => {
            leaf_laws::lemma_leaf_counted(node);
        },
    }
}

pub proof fn lemma_nodes_counted(nodes: Seq<NodeModel>, depth: int, count: int, total: int)
    requires
        0 <= count <= MAX_NODES,
        size_nodes(nodes, depth, count, total) is Ok,
    ensures
        nodes_fit(nodes),
        size_nodes(nodes, depth, count, total)->Ok_0.0 == total + nodes_bytes(nodes).len(),
        count + nodes.len() <= size_nodes(nodes, depth, count, total)->Ok_0.1 <= MAX_NODES,
    decreases nodes,
{
    if nodes.len() > 0 {
        lemma_node_counted(nodes[0], depth, count);
        let (length, after) = size_node(nodes[0], depth, count)->Ok_0;
        lemma_nodes_counted(nodes.skip(1), depth, after, total + length);
    }
}

pub proof fn lemma_slot_counted(slot: BandSlotModel, depth: int, count: int, total: int)
    requires
        0 <= count <= MAX_NODES,
        size_slot(slot, depth, count, total) is Ok,
    ensures
        slot_fits(slot),
        size_slot(slot, depth, count, total)->Ok_0.0 == total + slot_bytes(slot).len(),
        count <= size_slot(slot, depth, count, total)->Ok_0.1 <= MAX_NODES,
    decreases slot,
{
    broadcast use wire::group_lengths;

    lemma_nodes_counted(slot.nodes, depth, count, slot_head(slot.width, total)->Ok_0);
}

pub proof fn lemma_slots_counted(
    slots: Seq<BandSlotModel>,
    limit: nat,
    depth: int,
    count: int,
    total: int,
)
    requires
        0 <= count <= MAX_NODES,
        size_slots(slots, limit, depth, count, total) is Ok,
    ensures
        slots_fit(slots, limit),
        size_slots(slots, limit, depth, count, total)->Ok_0.0 == total + slots_bytes(
            slots,
            limit,
        ).len(),
        count <= size_slots(slots, limit, depth, count, total)->Ok_0.1 <= MAX_NODES,
    decreases slots,
{
    if slots.len() > 0 && limit > 0 {
        lemma_slot_counted(slots[0], depth, count, total);
        let (grown, after) = size_slot(slots[0], depth, count, total)->Ok_0;
        lemma_slots_counted(slots.skip(1), (limit - 1) as nat, depth, after, grown);
    }
}

// ---------------------------------------------------------------------------
// Reading gives back what was written.

/// A tree that loses nothing on the wire is read back as it was, and leaves
/// the same count of nodes behind it.
pub proof fn lemma_node_read_back(node: NodeModel, rest: Seq<u8>, depth: int, count: int)
    requires
        0 <= count,
        node_faithful(node),
        size_node(node, depth, count) is Ok,
    ensures
        parse_node(node_bytes(node) + rest, depth, count) == Ok::<_, ProtocolError>(
            ((node, size_node(node, depth, count)->Ok_0.1), rest),
        ),
    decreases node,
{
    lemma_node_counted(node, depth, count);
    let tag = leaf::node_tag(node);
    let id = leaf::node_id(node);
    match node {
        NodeModel::Card { id: _, children } => {
            let inside = wire::be16(children.len() as u16) + (nodes_bytes(children) + rest);
            assert(node_bytes(node) + rest == seq![tag] + (wire::be32(id.0) + inside)) by {
                broadcast use wire::lemma_concat_to_the_right;

            }
            wire::lemma_parse_u8(tag, wire::be32(id.0) + inside);
            wire::lemma_parse_u32(id.0, inside);
            wire::lemma_parse_u16(children.len() as u16, nodes_bytes(children) + rest);
            lemma_nodes_read_back(children, rest, depth + 1, count + 1, 7);
        },
        NodeModel::Band { id: _, align, slots } => {
            let limit = MAX_BAND_SLOTS as nat;
            let columns = slots_bytes(slots, limit) + rest;
            let inside = seq![align_tag(align)] + (seq![drawn_slots(slots) as u8] + columns);
            assert(node_bytes(node) + rest == seq![tag] + (wire::be32(id.0) + inside)) by {
                broadcast use wire::lemma_concat_to_the_right;

            }
            wire::lemma_parse_u8(tag, wire::be32(id.0) + inside);
            wire::lemma_parse_u32(id.0, inside);
            wire::lemma_parse_u8(align_tag(align), seq![drawn_slots(slots) as u8] + columns);
            wire::lemma_parse_u8(drawn_slots(slots) as u8, columns);
            lemma_slots_read_back(slots, limit, rest, depth + 1, count + 1, 7);
        },
        _ => {
            let inside = leaf::leaf_body(node) + rest;
            assert(node_bytes(node) + rest == seq![tag] + (wire::be32(id.0) + inside)) by {
                broadcast use wire::lemma_concat_to_the_right;

            }
            wire::lemma_parse_u8(tag, wire::be32(id.0) + inside);
            wire::lemma_parse_u32(id.0, inside);
            leaf_laws::lemma_leaf_read_back(node, rest);
        },
    }
}

pub proof fn lemma_nodes_read_back(
    nodes: Seq<NodeModel>,
    rest: Seq<u8>,
    depth: int,
    count: int,
    total: int,
)
    requires
        0 <= count,
        nodes_faithful(nodes),
        size_nodes(nodes, depth, count, total) is Ok,
    ensures
        parse_nodes(nodes_bytes(nodes) + rest, nodes.len(), depth, count) == Ok::<
            _,
            ProtocolError,
        >(((nodes, size_nodes(nodes, depth, count, total)->Ok_0.1), rest)),
    decreases nodes,
{
    if nodes.len() == 0 {
        assert(nodes_bytes(nodes) + rest =~= rest);
        assert(nodes =~= Seq::empty());
    } else {
        let tail = nodes.skip(1);
        let (length, after) = size_node(nodes[0], depth, count)->Ok_0;
        lemma_node_counted(nodes[0], depth, count);
        assert(nodes_bytes(nodes) + rest =~= node_bytes(nodes[0]) + (nodes_bytes(tail) + rest));
        lemma_node_read_back(nodes[0], nodes_bytes(tail) + rest, depth, count);
        lemma_nodes_read_back(tail, rest, depth, after, total + length);
        assert(seq![nodes[0]] + tail =~= nodes);
    }
}

pub proof fn lemma_slot_read_back(
    slot: BandSlotModel,
    rest: Seq<u8>,
    depth: int,
    count: int,
    total: int,
)
    requires
        0 <= count <= MAX_NODES,
        slot_faithful(slot),
        size_slot(slot, depth, count, total) is Ok,
    ensures
        parse_slot(slot_bytes(slot) + rest, depth, count) == Ok::<_, ProtocolError>(
            ((slot, size_slot(slot, depth, count, total)->Ok_0.1), rest),
        ),
    decreases slot,
{
    let nodes = slot.nodes;
    let head = slot_head(slot.width, total)->Ok_0;
    lemma_nodes_counted(nodes, depth, count, head);
    lemma_nodes_read_back(nodes, rest, depth, count, head);
    let tail = wire::be16(nodes.len() as u16) + (nodes_bytes(nodes) + rest);
    assert(slot_bytes(slot) + rest == width_bytes(slot.width) + tail) by {
        broadcast use wire::lemma_concat_to_the_right;

    }
    assert(parse_width(width_bytes(slot.width) + tail) == Ok::<_, ProtocolError>(
        (slot.width, tail),
    )) by {
        broadcast use wire::group_reading;

    }
    wire::lemma_parse_u16(nodes.len() as u16, nodes_bytes(nodes) + rest);
}

pub proof fn lemma_slots_read_back(
    slots: Seq<BandSlotModel>,
    limit: nat,
    rest: Seq<u8>,
    depth: int,
    count: int,
    total: int,
)
    requires
        0 <= count <= MAX_NODES,
        slots.len() <= limit,
        slots_faithful(slots),
        size_slots(slots, limit, depth, count, total) is Ok,
    ensures
        parse_slots(slots_bytes(slots, limit) + rest, slots.len(), depth, count) == Ok::<
            _,
            ProtocolError,
        >(((slots, size_slots(slots, limit, depth, count, total)->Ok_0.1), rest)),
    decreases slots,
{
    if slots.len() == 0 {
        assert(slots_bytes(slots, limit) + rest =~= rest);
        assert(slots =~= Seq::empty());
    } else {
        let tail = slots.skip(1);
        let left = (limit - 1) as nat;
        let (grown, after) = size_slot(slots[0], depth, count, total)->Ok_0;
        lemma_slot_counted(slots[0], depth, count, total);
        assert(slots_bytes(slots, limit) + rest =~= slot_bytes(slots[0]) + (slots_bytes(tail, left)
            + rest));
        lemma_slot_read_back(slots[0], slots_bytes(tail, left) + rest, depth, count, total);
        lemma_slots_read_back(tail, left, rest, depth, after, grown);
        assert(seq![slots[0]] + tail =~= slots);
    }
}

/// A run of nodes never grows a length past what a frame may be.
pub proof fn lemma_nodes_bounded(nodes: Seq<NodeModel>, depth: int, count: int, total: int)
    requires
        total <= MAX_FRAME_LEN,
        size_nodes(nodes, depth, count, total) is Ok,
    ensures
        size_nodes(nodes, depth, count, total)->Ok_0.0 <= MAX_FRAME_LEN,
    decreases nodes,
{
    if nodes.len() > 0 {
        let (length, after) = size_node(nodes[0], depth, count)->Ok_0;
        lemma_nodes_bounded(nodes.skip(1), depth, after, total + length);
    }
}

} // verus!
