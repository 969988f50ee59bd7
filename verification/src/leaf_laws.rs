//! A leaf is counted exactly, and read back as it was written.

use vstd::prelude::*;

use crate::error::ProtocolError;
use crate::item;
use crate::item::Wire;
use crate::leaf;
use crate::limits::{MAX_CHIPS, MAX_FACTS, MAX_INLINE_FORMULAE, MAX_TABS, MAX_TEXT_LINKS};
use crate::lists;
use crate::parts;
use crate::prose;
use crate::ui::{
    BarAction, BarActionModel, Cell, Chip, InlineFormula, NodeId, NodeModel, ParagraphPresentation,
    Percent, RichTextSpan, Row, TableRow, TextLink, Tile,
    TextSelection, TilePicture, TransferFailureModel,
};
use crate::wire;

verus! {

proof fn lemma_spans_len(spans: Seq<RichTextSpan>)
    ensures
        item::bytes_of_all::<RichTextSpan>(spans).len() == 9 * spans.len(),
    decreases spans.len(),
{
    broadcast use wire::group_lengths;

    if spans.len() > 0 {
        lemma_spans_len(spans.drop_first());
    }
}

proof fn lemma_weights_len(weights: Seq<u16>)
    ensures
        item::bytes_of_all::<u16>(weights).len() == 2 * weights.len(),
    decreases weights.len(),
{
    broadcast use wire::group_lengths;

    if weights.len() > 0 {
        lemma_weights_len(weights.drop_first());
    }
}

// ---------------------------------------------------------------------------
// Counting, one kind of leaf at a time.

proof fn lemma_heading_counted(node: NodeModel)
    requires
        node is Heading,
        leaf::leaf_grown(node) is Ok,
    ensures
        leaf::leaf_fits(node),
        leaf::leaf_grown(node) == Ok::<int, ProtocolError>(5 + leaf::leaf_body(node).len() as int),
{
    reveal(leaf::leaf_grown);
    reveal(leaf::leaf_fits);
    reveal(leaf::leaf_body);
    broadcast use wire::group_lengths;

}

proof fn lemma_text_counted(node: NodeModel)
    requires
        node is Text,
        leaf::leaf_grown(node) is Ok,
    ensures
        leaf::leaf_fits(node),
        leaf::leaf_grown(node) == Ok::<int, ProtocolError>(5 + leaf::leaf_body(node).len() as int),
{
    reveal(leaf::leaf_grown);
    reveal(leaf::leaf_fits);
    reveal(leaf::leaf_body);
    broadcast use wire::group_lengths;

    if let NodeModel::Text { id, text, links } = node {
        let sent = prose::at_most(links, MAX_TEXT_LINKS as int);
        let base = wire::grown_text(Ok(6), text);
        item::lemma_all_counted::<TextLink>(sent, base->Ok_0);
    }
}

proof fn lemma_rich_text_counted(node: NodeModel)
    requires
        node is RichText,
        leaf::leaf_grown(node) is Ok,
    ensures
        leaf::leaf_fits(node),
        leaf::leaf_grown(node) == Ok::<int, ProtocolError>(5 + leaf::leaf_body(node).len() as int),
{
    reveal(leaf::leaf_grown);
    reveal(leaf::leaf_fits);
    reveal(leaf::leaf_body);
    broadcast use {wire::group_lengths, prose::lemma_presentation_len, prose::lemma_selection_len};

    if let NodeModel::RichText {
        id,
        text,
        spans,
        links,
        presentation,
        selection,
        formulae,
    } = node {
        let sent = prose::at_most(links, MAX_TEXT_LINKS as int);
        let drawn = prose::at_most(formulae, MAX_INLINE_FORMULAE as int);
        lemma_spans_len(spans);
        let with_spans = wire::grown(
            wire::grown_text(Ok(5), text),
            (2 + spans.len() * 9 + 9 + 1 + 1) as int,
        );
        let with_links = item::grown_by_all::<TextLink>(sent, with_spans);
        let with_selection = wire::grown(
            with_links,
            if selection is Some {
                12
            } else {
                0
            },
        );
        let with_count = wire::grown(with_selection, 1);
        item::lemma_all_counted::<InlineFormula>(drawn, with_count->Ok_0);
        item::lemma_all_counted::<TextLink>(sent, with_spans->Ok_0);
    }
}

proof fn lemma_secondary_counted(node: NodeModel)
    requires
        node is Secondary,
        leaf::leaf_grown(node) is Ok,
    ensures
        leaf::leaf_fits(node),
        leaf::leaf_grown(node) == Ok::<int, ProtocolError>(5 + leaf::leaf_body(node).len() as int),
{
    reveal(leaf::leaf_grown);
    reveal(leaf::leaf_fits);
    reveal(leaf::leaf_body);
    broadcast use wire::group_lengths;

}

proof fn lemma_section_counted(node: NodeModel)
    requires
        node is Section,
        leaf::leaf_grown(node) is Ok,
    ensures
        leaf::leaf_fits(node),
        leaf::leaf_grown(node) == Ok::<int, ProtocolError>(5 + leaf::leaf_body(node).len() as int),
{
    reveal(leaf::leaf_grown);
    reveal(leaf::leaf_fits);
    reveal(leaf::leaf_body);
    broadcast use {wire::group_lengths, parts::lemma_trailing_len};

}

proof fn lemma_quote_counted(node: NodeModel)
    requires
        node is Quote,
        leaf::leaf_grown(node) is Ok,
    ensures
        leaf::leaf_fits(node),
        leaf::leaf_grown(node) == Ok::<int, ProtocolError>(5 + leaf::leaf_body(node).len() as int),
{
    reveal(leaf::leaf_grown);
    reveal(leaf::leaf_fits);
    reveal(leaf::leaf_body);
    broadcast use wire::group_lengths;

}

proof fn lemma_button_counted(node: NodeModel)
    requires
        node is Button,
        leaf::leaf_grown(node) is Ok,
    ensures
        leaf::leaf_fits(node),
        leaf::leaf_grown(node) == Ok::<int, ProtocolError>(5 + leaf::leaf_body(node).len() as int),
{
    reveal(leaf::leaf_grown);
    reveal(leaf::leaf_fits);
    reveal(leaf::leaf_body);
    broadcast use wire::group_lengths;

}

proof fn lemma_field_counted(node: NodeModel)
    requires
        node is Field,
        leaf::leaf_grown(node) is Ok,
    ensures
        leaf::leaf_fits(node),
        leaf::leaf_grown(node) == Ok::<int, ProtocolError>(5 + leaf::leaf_body(node).len() as int),
{
    reveal(leaf::leaf_grown);
    reveal(leaf::leaf_fits);
    reveal(leaf::leaf_body);
    broadcast use wire::group_lengths;

}

proof fn lemma_chips_counted(node: NodeModel)
    requires
        node is Chips,
        leaf::leaf_grown(node) is Ok,
    ensures
        leaf::leaf_fits(node),
        leaf::leaf_grown(node) == Ok::<int, ProtocolError>(5 + leaf::leaf_body(node).len() as int),
{
    reveal(leaf::leaf_grown);
    reveal(leaf::leaf_fits);
    reveal(leaf::leaf_body);
    broadcast use wire::group_lengths;

    if let NodeModel::Chips { id, chips } = node {
        item::lemma_all_counted::<Chip>(prose::at_most(chips, MAX_CHIPS as int), 6);
    }
}

proof fn lemma_tabs_counted(node: NodeModel)
    requires
        node is Tabs,
        leaf::leaf_grown(node) is Ok,
    ensures
        leaf::leaf_fits(node),
        leaf::leaf_grown(node) == Ok::<int, ProtocolError>(5 + leaf::leaf_body(node).len() as int),
{
    reveal(leaf::leaf_grown);
    reveal(leaf::leaf_fits);
    reveal(leaf::leaf_body);
    broadcast use wire::group_lengths;

    if let NodeModel::Tabs { id, tabs, selected } = node {
        lists::lemma_tabs_counted(prose::at_most(tabs, MAX_TABS as int), 7);
    }
}

proof fn lemma_facts_counted(node: NodeModel)
    requires
        node is Facts,
        leaf::leaf_grown(node) is Ok,
    ensures
        leaf::leaf_fits(node),
        leaf::leaf_grown(node) == Ok::<int, ProtocolError>(5 + leaf::leaf_body(node).len() as int),
{
    reveal(leaf::leaf_grown);
    reveal(leaf::leaf_fits);
    reveal(leaf::leaf_body);
    broadcast use wire::group_lengths;

    if let NodeModel::Facts { id, entries } = node {
        item::lemma_all_counted::<(String, String)>(prose::at_most(entries, MAX_FACTS as int), 7);
    }
}

proof fn lemma_divider_counted(node: NodeModel)
    requires
        node is Divider,
        leaf::leaf_grown(node) is Ok,
    ensures
        leaf::leaf_fits(node),
        leaf::leaf_grown(node) == Ok::<int, ProtocolError>(5 + leaf::leaf_body(node).len() as int),
{
    reveal(leaf::leaf_grown);
    reveal(leaf::leaf_fits);
    reveal(leaf::leaf_body);
    broadcast use wire::group_lengths;

}

proof fn lemma_flex_counted(node: NodeModel)
    requires
        node is Flex,
        leaf::leaf_grown(node) is Ok,
    ensures
        leaf::leaf_fits(node),
        leaf::leaf_grown(node) == Ok::<int, ProtocolError>(5 + leaf::leaf_body(node).len() as int),
{
    reveal(leaf::leaf_grown);
    reveal(leaf::leaf_fits);
    reveal(leaf::leaf_body);
    broadcast use wire::group_lengths;

}

proof fn lemma_spacer_counted(node: NodeModel)
    requires
        node is Spacer,
        leaf::leaf_grown(node) is Ok,
    ensures
        leaf::leaf_fits(node),
        leaf::leaf_grown(node) == Ok::<int, ProtocolError>(5 + leaf::leaf_body(node).len() as int),
{
    reveal(leaf::leaf_grown);
    reveal(leaf::leaf_fits);
    reveal(leaf::leaf_body);
    broadcast use wire::group_lengths;

}

proof fn lemma_progress_counted(node: NodeModel)
    requires
        node is Progress,
        leaf::leaf_grown(node) is Ok,
    ensures
        leaf::leaf_fits(node),
        leaf::leaf_grown(node) == Ok::<int, ProtocolError>(5 + leaf::leaf_body(node).len() as int),
{
    reveal(leaf::leaf_grown);
    reveal(leaf::leaf_fits);
    reveal(leaf::leaf_body);
    broadcast use wire::group_lengths;

}

proof fn lemma_paged_list_counted(node: NodeModel)
    requires
        node is PagedList,
        leaf::leaf_grown(node) is Ok,
    ensures
        leaf::leaf_fits(node),
        leaf::leaf_grown(node) == Ok::<int, ProtocolError>(5 + leaf::leaf_body(node).len() as int),
{
    reveal(leaf::leaf_grown);
    reveal(leaf::leaf_fits);
    reveal(leaf::leaf_body);
    broadcast use wire::group_lengths;

    if let NodeModel::PagedList { id, page, items } = node {
        item::lemma_all_counted::<String>(items, 9);
    }
}

proof fn lemma_grid_counted(node: NodeModel)
    requires
        node is Grid,
        leaf::leaf_grown(node) is Ok,
    ensures
        leaf::leaf_fits(node),
        leaf::leaf_grown(node) == Ok::<int, ProtocolError>(5 + leaf::leaf_body(node).len() as int),
{
    reveal(leaf::leaf_grown);
    reveal(leaf::leaf_fits);
    reveal(leaf::leaf_body);
    broadcast use wire::group_lengths;

    if let NodeModel::Grid { id, columns, square, cells } = node {
        item::lemma_all_counted::<Cell>(cells, 8);
    }
}

proof fn lemma_rows_counted(node: NodeModel)
    requires
        node is Rows,
        leaf::leaf_grown(node) is Ok,
    ensures
        leaf::leaf_fits(node),
        leaf::leaf_grown(node) == Ok::<int, ProtocolError>(5 + leaf::leaf_body(node).len() as int),
{
    reveal(leaf::leaf_grown);
    reveal(leaf::leaf_fits);
    reveal(leaf::leaf_body);
    broadcast use wire::group_lengths;

    if let NodeModel::Rows { id, rows } = node {
        item::lemma_all_counted::<Row>(rows, 6);
    }
}

proof fn lemma_tile_grid_counted(node: NodeModel)
    requires
        node is TileGrid,
        leaf::leaf_grown(node) is Ok,
    ensures
        leaf::leaf_fits(node),
        leaf::leaf_grown(node) == Ok::<int, ProtocolError>(5 + leaf::leaf_body(node).len() as int),
{
    reveal(leaf::leaf_grown);
    reveal(leaf::leaf_fits);
    reveal(leaf::leaf_body);
    broadcast use wire::group_lengths;

    if let NodeModel::TileGrid { id, tiles, shape } = node {
        item::lemma_all_counted::<Tile>(tiles, 7);
    }
}

proof fn lemma_picture_counted(node: NodeModel)
    requires
        node is Picture,
        leaf::leaf_grown(node) is Ok,
    ensures
        leaf::leaf_fits(node),
        leaf::leaf_grown(node) == Ok::<int, ProtocolError>(5 + leaf::leaf_body(node).len() as int),
{
    reveal(leaf::leaf_grown);
    reveal(leaf::leaf_fits);
    reveal(leaf::leaf_body);
    broadcast use wire::group_lengths;

}

proof fn lemma_table_counted(node: NodeModel)
    requires
        node is Table,
        leaf::leaf_grown(node) is Ok,
    ensures
        leaf::leaf_fits(node),
        leaf::leaf_grown(node) == Ok::<int, ProtocolError>(5 + leaf::leaf_body(node).len() as int),
{
    reveal(leaf::leaf_grown);
    reveal(leaf::leaf_fits);
    reveal(leaf::leaf_body);
    broadcast use wire::group_lengths;

    if let NodeModel::Table { id, rows, weights } = node {
        lemma_weights_len(weights);
        let with_weights = wire::grown(Ok(7), (weights.len() * 2) as int);
        item::lemma_all_counted::<TableRow>(rows, with_weights->Ok_0);
    }
}

proof fn lemma_stepper_counted(node: NodeModel)
    requires
        node is Stepper,
        leaf::leaf_grown(node) is Ok,
    ensures
        leaf::leaf_fits(node),
        leaf::leaf_grown(node) == Ok::<int, ProtocolError>(5 + leaf::leaf_body(node).len() as int),
{
    reveal(leaf::leaf_grown);
    reveal(leaf::leaf_fits);
    reveal(leaf::leaf_body);
    broadcast use wire::group_lengths;

}

proof fn lemma_choice_counted(node: NodeModel)
    requires
        node is Choice,
        leaf::leaf_grown(node) is Ok,
    ensures
        leaf::leaf_fits(node),
        leaf::leaf_grown(node) == Ok::<int, ProtocolError>(5 + leaf::leaf_body(node).len() as int),
{
    reveal(leaf::leaf_grown);
    reveal(leaf::leaf_fits);
    reveal(leaf::leaf_body);
    broadcast use wire::group_lengths;

    if let NodeModel::Choice { id, prompt, options, selected, freeform } = node {
        let base = wire::grown_text(Ok(8), prompt);
        item::lemma_all_counted::<BarAction>(options, base->Ok_0);
    }
}

proof fn lemma_banner_counted(node: NodeModel)
    requires
        node is Banner,
        leaf::leaf_grown(node) is Ok,
    ensures
        leaf::leaf_fits(node),
        leaf::leaf_grown(node) == Ok::<int, ProtocolError>(5 + leaf::leaf_body(node).len() as int),
{
    reveal(leaf::leaf_grown);
    reveal(leaf::leaf_fits);
    reveal(leaf::leaf_body);
    broadcast use wire::group_lengths;

}

proof fn lemma_skeleton_counted(node: NodeModel)
    requires
        node is Skeleton,
        leaf::leaf_grown(node) is Ok,
    ensures
        leaf::leaf_fits(node),
        leaf::leaf_grown(node) == Ok::<int, ProtocolError>(5 + leaf::leaf_body(node).len() as int),
{
    reveal(leaf::leaf_grown);
    reveal(leaf::leaf_fits);
    reveal(leaf::leaf_body);
    broadcast use wire::group_lengths;

}

proof fn lemma_splash_counted(node: NodeModel)
    requires
        node is Splash,
        leaf::leaf_grown(node) is Ok,
    ensures
        leaf::leaf_fits(node),
        leaf::leaf_grown(node) == Ok::<int, ProtocolError>(5 + leaf::leaf_body(node).len() as int),
{
    reveal(leaf::leaf_grown);
    reveal(leaf::leaf_fits);
    reveal(leaf::leaf_body);
    broadcast use {wire::group_lengths, parts::lemma_mark_len};

}

proof fn lemma_activity_counted(node: NodeModel)
    requires
        node is Activity,
        leaf::leaf_grown(node) is Ok,
    ensures
        leaf::leaf_fits(node),
        leaf::leaf_grown(node) == Ok::<int, ProtocolError>(5 + leaf::leaf_body(node).len() as int),
{
    reveal(leaf::leaf_grown);
    reveal(leaf::leaf_fits);
    reveal(leaf::leaf_body);
    broadcast use wire::group_lengths;

}

proof fn lemma_terminal_counted(node: NodeModel)
    requires
        node is Terminal,
        leaf::leaf_grown(node) is Ok,
    ensures
        leaf::leaf_fits(node),
        leaf::leaf_grown(node) == Ok::<int, ProtocolError>(5 + leaf::leaf_body(node).len() as int),
{
    reveal(leaf::leaf_grown);
    reveal(leaf::leaf_fits);
    reveal(leaf::leaf_body);
    broadcast use wire::group_lengths;

    if let NodeModel::Terminal { id, rows, cursor } = node {
        lists::lemma_rows_counted(rows, 6);
    }
}

/// A leaf that could be counted fits, and its length is its tag, its
/// identifier and its body.
pub proof fn lemma_leaf_counted(node: NodeModel)
    requires
        !leaf::is_container(node),
        leaf::leaf_grown(node) is Ok,
    ensures
        leaf::leaf_fits(node),
        leaf::leaf_grown(node) == Ok::<int, ProtocolError>(5 + leaf::leaf_body(node).len() as int),
{
    match node {
        NodeModel::Heading { .. } => lemma_heading_counted(node),
        NodeModel::Text { .. } => lemma_text_counted(node),
        NodeModel::RichText { .. } => lemma_rich_text_counted(node),
        NodeModel::Secondary { .. } => lemma_secondary_counted(node),
        NodeModel::Section { .. } => lemma_section_counted(node),
        NodeModel::Quote { .. } => lemma_quote_counted(node),
        NodeModel::Button { .. } => lemma_button_counted(node),
        NodeModel::Field { .. } => lemma_field_counted(node),
        NodeModel::Chips { .. } => lemma_chips_counted(node),
        NodeModel::Tabs { .. } => lemma_tabs_counted(node),
        NodeModel::Facts { .. } => lemma_facts_counted(node),
        NodeModel::Divider { .. } => lemma_divider_counted(node),
        NodeModel::Flex { .. } => lemma_flex_counted(node),
        NodeModel::Spacer { .. } => lemma_spacer_counted(node),
        NodeModel::Progress { .. } => lemma_progress_counted(node),
        NodeModel::PagedList { .. } => lemma_paged_list_counted(node),
        NodeModel::Grid { .. } => lemma_grid_counted(node),
        NodeModel::Rows { .. } => lemma_rows_counted(node),
        NodeModel::TileGrid { .. } => lemma_tile_grid_counted(node),
        NodeModel::Picture { .. } => lemma_picture_counted(node),
        NodeModel::Table { .. } => lemma_table_counted(node),
        NodeModel::Stepper { .. } => lemma_stepper_counted(node),
        NodeModel::Choice { .. } => lemma_choice_counted(node),
        NodeModel::Banner { .. } => lemma_banner_counted(node),
        NodeModel::Skeleton { .. } => lemma_skeleton_counted(node),
        NodeModel::Splash { .. } => lemma_splash_counted(node),
        NodeModel::Activity { .. } => lemma_activity_counted(node),
        NodeModel::Terminal { .. } => lemma_terminal_counted(node),
        _ => {},
    }
}

// ---------------------------------------------------------------------------
// Reading back, one kind of leaf at a time.

/// Links that land name offsets the wire can carry.
proof fn lemma_links_are_faithful(links: Seq<TextLink>, text: Seq<char>)
    requires
        wire::text_fits(text),
        prose::links_land(links, text),
    ensures
        item::all_faithful::<TextLink>(links),
{
    assert forall|i: int| 0 <= i < links.len() implies TextLink::faithful(#[trigger] links[i]) by {
        assert(prose::link_lands(text)(links[i]));
    }
}

proof fn lemma_heading_read_back(node: NodeModel, rest: Seq<u8>)
    requires
        node is Heading,
        leaf::leaf_fits(node),
        leaf::leaf_refusal(node) is None,
        leaf::leaf_faithful(node),
    ensures
        leaf::parse_leaf(leaf::node_tag(node), leaf::node_id(node), leaf::leaf_body(node) + rest)
            == Ok::<(NodeModel, Seq<u8>), ProtocolError>((node, rest)),
{
    reveal(leaf::leaf_fits);
    reveal(leaf::leaf_faithful);
    reveal(leaf::leaf_body);
    reveal(leaf::parse_leaf);
    broadcast use wire::group_reading;

}

proof fn lemma_text_read_back(node: NodeModel, rest: Seq<u8>)
    requires
        node is Text,
        leaf::leaf_fits(node),
        leaf::leaf_refusal(node) is None,
        leaf::leaf_faithful(node),
    ensures
        leaf::parse_leaf(leaf::node_tag(node), leaf::node_id(node), leaf::leaf_body(node) + rest)
            == Ok::<(NodeModel, Seq<u8>), ProtocolError>((node, rest)),
{
    reveal(leaf::leaf_fits);
    reveal(leaf::leaf_faithful);
    reveal(leaf::leaf_body);
    reveal(leaf::parse_leaf);
    broadcast use wire::group_reading;

    if let NodeModel::Text { id, text, links } = node {
        lemma_links_are_faithful(links, text);
        prose::lemma_all_links_land(links, text);
        item::lemma_all_read_back::<TextLink>(links, rest);
    }
}

/// What follows the styled spans of a paragraph.
spec fn after_spans(
    links: Seq<TextLink>,
    presentation: ParagraphPresentation,
    selection: Option<TextSelection>,
    formulae: Seq<InlineFormula>,
    rest: Seq<u8>,
) -> Seq<u8> {
    prose::presentation_bytes(presentation) + (seq![links.len() as u8] + (item::bytes_of_all::<
        TextLink,
    >(links) + (prose::selection_bytes(selection) + (seq![formulae.len() as u8] + (
    item::bytes_of_all::<InlineFormula>(formulae) + rest)))))
}

proof fn lemma_rest_of_rich_text_read_back(
    id: NodeId,
    text: Seq<char>,
    spans: Seq<RichTextSpan>,
    links: Seq<TextLink>,
    presentation: ParagraphPresentation,
    selection: Option<TextSelection>,
    formulae: Seq<InlineFormula>,
    rest: Seq<u8>,
)
    requires
        wire::text_fits(text),
        links.len() <= MAX_TEXT_LINKS,
        prose::links_land(links, text),
        prose::presentation_in_bounds(presentation),
        prose::formulae_in_order(formulae, text),
    ensures
        leaf::parse_rest_of_rich_text(
            id,
            text,
            spans,
            after_spans(links, presentation, selection, formulae, rest),
        ) == Ok::<(NodeModel, Seq<u8>), ProtocolError>(
            (
                NodeModel::RichText {
                    id,
                    text,
                    spans,
                    links,
                    presentation,
                    selection,
                    formulae,
                },
                rest,
            ),
        ),
{
    assert forall|i: int| 0 <= i < formulae.len() implies InlineFormula::faithful(
        #[trigger] formulae[i],
    ) by {
        assert(prose::is_run(text, formulae[i].start as int, formulae[i].end as int));
    }
    lemma_links_are_faithful(links, text);
    prose::lemma_all_links_land(links, text);
    prose::lemma_all_formulae_join(formulae, text);
    let after_count = item::bytes_of_all::<InlineFormula>(formulae) + rest;
    let after_selection = seq![formulae.len() as u8] + after_count;
    let after_links = prose::selection_bytes(selection) + after_selection;
    let after_link_count = item::bytes_of_all::<TextLink>(links) + after_links;
    item::lemma_all_read_back::<InlineFormula>(formulae, rest);
    wire::lemma_parse_u8(formulae.len() as u8, after_count);
    prose::lemma_parse_selection(selection, after_selection);
    item::lemma_all_read_back::<TextLink>(links, after_links);
    wire::lemma_parse_u8(links.len() as u8, after_link_count);
    prose::lemma_parse_presentation(presentation, seq![links.len() as u8] + after_link_count);
}

proof fn lemma_rich_text_read_back(node: NodeModel, rest: Seq<u8>)
    requires
        node is RichText,
        leaf::leaf_fits(node),
        leaf::leaf_refusal(node) is None,
        leaf::leaf_faithful(node),
    ensures
        leaf::parse_leaf(leaf::node_tag(node), leaf::node_id(node), leaf::leaf_body(node) + rest)
            == Ok::<(NodeModel, Seq<u8>), ProtocolError>((node, rest)),
{
    reveal(leaf::leaf_fits);
    reveal(leaf::leaf_faithful);
    reveal(leaf::parse_leaf);
    if let NodeModel::RichText { id, text, spans, links, presentation, selection, formulae } =
        node {
        assert forall|i: int| 0 <= i < spans.len() implies RichTextSpan::faithful(
            #[trigger] spans[i],
        ) by {
            assert(prose::is_run(text, spans[i].start as int, spans[i].end as int));
        }
        let tail = after_spans(links, presentation, selection, formulae, rest);
        let after_count = item::bytes_of_all::<RichTextSpan>(spans) + tail;
        let after_text = wire::be16(spans.len() as u16) + after_count;
        assert(leaf::leaf_body(node) + rest == wire::text_bytes(text) + after_text) by {
            reveal(leaf::leaf_body);
            broadcast use wire::lemma_concat_to_the_right;

        }
        wire::lemma_parse_text(text, after_text);
        wire::lemma_parse_u16(spans.len() as u16, after_count);
        prose::lemma_spans_read_back(spans, tail, text);
        lemma_rest_of_rich_text_read_back(
            id,
            text,
            spans,
            links,
            presentation,
            selection,
            formulae,
            rest,
        );
    }
}

proof fn lemma_secondary_read_back(node: NodeModel, rest: Seq<u8>)
    requires
        node is Secondary,
        leaf::leaf_fits(node),
        leaf::leaf_refusal(node) is None,
        leaf::leaf_faithful(node),
    ensures
        leaf::parse_leaf(leaf::node_tag(node), leaf::node_id(node), leaf::leaf_body(node) + rest)
            == Ok::<(NodeModel, Seq<u8>), ProtocolError>((node, rest)),
{
    reveal(leaf::leaf_fits);
    reveal(leaf::leaf_faithful);
    reveal(leaf::leaf_body);
    reveal(leaf::parse_leaf);
    broadcast use wire::group_reading;

}

proof fn lemma_section_read_back(node: NodeModel, rest: Seq<u8>)
    requires
        node is Section,
        leaf::leaf_fits(node),
        leaf::leaf_refusal(node) is None,
        leaf::leaf_faithful(node),
    ensures
        leaf::parse_leaf(leaf::node_tag(node), leaf::node_id(node), leaf::leaf_body(node) + rest)
            == Ok::<(NodeModel, Seq<u8>), ProtocolError>((node, rest)),
{
    reveal(leaf::leaf_fits);
    reveal(leaf::leaf_faithful);
    reveal(leaf::leaf_body);
    reveal(leaf::parse_leaf);
    broadcast use {wire::group_reading, parts::lemma_parse_trailing};

}

proof fn lemma_quote_read_back(node: NodeModel, rest: Seq<u8>)
    requires
        node is Quote,
        leaf::leaf_fits(node),
        leaf::leaf_refusal(node) is None,
        leaf::leaf_faithful(node),
    ensures
        leaf::parse_leaf(leaf::node_tag(node), leaf::node_id(node), leaf::leaf_body(node) + rest)
            == Ok::<(NodeModel, Seq<u8>), ProtocolError>((node, rest)),
{
    reveal(leaf::leaf_fits);
    reveal(leaf::leaf_faithful);
    reveal(leaf::leaf_body);
    reveal(leaf::parse_leaf);
    broadcast use wire::group_reading;

}

proof fn lemma_button_read_back(node: NodeModel, rest: Seq<u8>)
    requires
        node is Button,
        leaf::leaf_fits(node),
        leaf::leaf_refusal(node) is None,
        leaf::leaf_faithful(node),
    ensures
        leaf::parse_leaf(leaf::node_tag(node), leaf::node_id(node), leaf::leaf_body(node) + rest)
            == Ok::<(NodeModel, Seq<u8>), ProtocolError>((node, rest)),
{
    reveal(leaf::leaf_fits);
    reveal(leaf::leaf_faithful);
    reveal(leaf::leaf_body);
    reveal(leaf::parse_leaf);
    broadcast use wire::group_reading;

}

proof fn lemma_field_read_back(node: NodeModel, rest: Seq<u8>)
    requires
        node is Field,
        leaf::leaf_fits(node),
        leaf::leaf_refusal(node) is None,
        leaf::leaf_faithful(node),
    ensures
        leaf::parse_leaf(leaf::node_tag(node), leaf::node_id(node), leaf::leaf_body(node) + rest)
            == Ok::<(NodeModel, Seq<u8>), ProtocolError>((node, rest)),
{
    reveal(leaf::leaf_fits);
    reveal(leaf::leaf_faithful);
    reveal(leaf::leaf_body);
    reveal(leaf::parse_leaf);
    broadcast use wire::group_reading;

}

proof fn lemma_chips_read_back(node: NodeModel, rest: Seq<u8>)
    requires
        node is Chips,
        leaf::leaf_fits(node),
        leaf::leaf_refusal(node) is None,
        leaf::leaf_faithful(node),
    ensures
        leaf::parse_leaf(leaf::node_tag(node), leaf::node_id(node), leaf::leaf_body(node) + rest)
            == Ok::<(NodeModel, Seq<u8>), ProtocolError>((node, rest)),
{
    reveal(leaf::leaf_fits);
    reveal(leaf::leaf_faithful);
    reveal(leaf::leaf_body);
    reveal(leaf::parse_leaf);
    broadcast use wire::group_reading;

    if let NodeModel::Chips { id, chips } = node {
        item::lemma_all_read_back::<Chip>(chips, rest);
    }
}

proof fn lemma_tabs_read_back(node: NodeModel, rest: Seq<u8>)
    requires
        node is Tabs,
        leaf::leaf_fits(node),
        leaf::leaf_refusal(node) is None,
        leaf::leaf_faithful(node),
    ensures
        leaf::parse_leaf(leaf::node_tag(node), leaf::node_id(node), leaf::leaf_body(node) + rest)
            == Ok::<(NodeModel, Seq<u8>), ProtocolError>((node, rest)),
{
    reveal(leaf::leaf_fits);
    reveal(leaf::leaf_faithful);
    reveal(leaf::leaf_body);
    reveal(leaf::parse_leaf);
    broadcast use wire::group_reading;

    if let NodeModel::Tabs { id, tabs, selected } = node {
        lists::lemma_tabs_read_back(tabs, rest);
    }
}

proof fn lemma_facts_read_back(node: NodeModel, rest: Seq<u8>)
    requires
        node is Facts,
        leaf::leaf_fits(node),
        leaf::leaf_refusal(node) is None,
        leaf::leaf_faithful(node),
    ensures
        leaf::parse_leaf(leaf::node_tag(node), leaf::node_id(node), leaf::leaf_body(node) + rest)
            == Ok::<(NodeModel, Seq<u8>), ProtocolError>((node, rest)),
{
    reveal(leaf::leaf_fits);
    reveal(leaf::leaf_faithful);
    reveal(leaf::leaf_body);
    reveal(leaf::parse_leaf);
    broadcast use wire::group_reading;

    if let NodeModel::Facts { id, entries } = node {
        item::lemma_all_read_back::<(String, String)>(entries, rest);
    }
}

proof fn lemma_divider_read_back(node: NodeModel, rest: Seq<u8>)
    requires
        node is Divider,
        leaf::leaf_fits(node),
        leaf::leaf_refusal(node) is None,
        leaf::leaf_faithful(node),
    ensures
        leaf::parse_leaf(leaf::node_tag(node), leaf::node_id(node), leaf::leaf_body(node) + rest)
            == Ok::<(NodeModel, Seq<u8>), ProtocolError>((node, rest)),
{
    reveal(leaf::leaf_fits);
    reveal(leaf::leaf_faithful);
    reveal(leaf::leaf_body);
    reveal(leaf::parse_leaf);
    broadcast use wire::group_reading;

}

proof fn lemma_flex_read_back(node: NodeModel, rest: Seq<u8>)
    requires
        node is Flex,
        leaf::leaf_fits(node),
        leaf::leaf_refusal(node) is None,
        leaf::leaf_faithful(node),
    ensures
        leaf::parse_leaf(leaf::node_tag(node), leaf::node_id(node), leaf::leaf_body(node) + rest)
            == Ok::<(NodeModel, Seq<u8>), ProtocolError>((node, rest)),
{
    reveal(leaf::leaf_fits);
    reveal(leaf::leaf_faithful);
    reveal(leaf::leaf_body);
    reveal(leaf::parse_leaf);
    broadcast use wire::group_reading;

}

proof fn lemma_spacer_read_back(node: NodeModel, rest: Seq<u8>)
    requires
        node is Spacer,
        leaf::leaf_fits(node),
        leaf::leaf_refusal(node) is None,
        leaf::leaf_faithful(node),
    ensures
        leaf::parse_leaf(leaf::node_tag(node), leaf::node_id(node), leaf::leaf_body(node) + rest)
            == Ok::<(NodeModel, Seq<u8>), ProtocolError>((node, rest)),
{
    reveal(leaf::leaf_fits);
    reveal(leaf::leaf_faithful);
    reveal(leaf::leaf_body);
    reveal(leaf::parse_leaf);
    broadcast use wire::group_reading;

}

proof fn lemma_progress_read_back(node: NodeModel, rest: Seq<u8>)
    requires
        node is Progress,
        leaf::leaf_fits(node),
        leaf::leaf_refusal(node) is None,
        leaf::leaf_faithful(node),
    ensures
        leaf::parse_leaf(leaf::node_tag(node), leaf::node_id(node), leaf::leaf_body(node) + rest)
            == Ok::<(NodeModel, Seq<u8>), ProtocolError>((node, rest)),
{
    reveal(leaf::leaf_fits);
    reveal(leaf::leaf_faithful);
    reveal(leaf::leaf_body);
    reveal(leaf::parse_leaf);
    broadcast use wire::group_reading;

}

proof fn lemma_paged_list_read_back(node: NodeModel, rest: Seq<u8>)
    requires
        node is PagedList,
        leaf::leaf_fits(node),
        leaf::leaf_refusal(node) is None,
        leaf::leaf_faithful(node),
    ensures
        leaf::parse_leaf(leaf::node_tag(node), leaf::node_id(node), leaf::leaf_body(node) + rest)
            == Ok::<(NodeModel, Seq<u8>), ProtocolError>((node, rest)),
{
    reveal(leaf::leaf_fits);
    reveal(leaf::leaf_faithful);
    reveal(leaf::leaf_body);
    reveal(leaf::parse_leaf);
    broadcast use wire::group_reading;

    if let NodeModel::PagedList { id, page, items } = node {
        item::lemma_all_read_back::<String>(items, rest);
    }
}

proof fn lemma_grid_read_back(node: NodeModel, rest: Seq<u8>)
    requires
        node is Grid,
        leaf::leaf_fits(node),
        leaf::leaf_refusal(node) is None,
        leaf::leaf_faithful(node),
    ensures
        leaf::parse_leaf(leaf::node_tag(node), leaf::node_id(node), leaf::leaf_body(node) + rest)
            == Ok::<(NodeModel, Seq<u8>), ProtocolError>((node, rest)),
{
    reveal(leaf::leaf_fits);
    reveal(leaf::leaf_faithful);
    reveal(leaf::leaf_body);
    reveal(leaf::parse_leaf);
    if let NodeModel::Grid { id, columns, square, cells } = node {
        let list = item::bytes_of_all::<Cell>(cells) + rest;
        let counted = seq![cells.len() as u8] + list;
        let squared = seq![wire::flag_byte(square)] + counted;
        assert(leaf::leaf_body(node) + rest == seq![columns] + squared) by {
            broadcast use wire::lemma_concat_to_the_right;

        }
        wire::lemma_parse_u8(columns, squared);
        wire::lemma_parse_u8(wire::flag_byte(square), counted);
        wire::lemma_parse_u8(cells.len() as u8, list);
        item::lemma_all_read_back::<Cell>(cells, rest);
    }
}

proof fn lemma_rows_read_back(node: NodeModel, rest: Seq<u8>)
    requires
        node is Rows,
        leaf::leaf_fits(node),
        leaf::leaf_refusal(node) is None,
        leaf::leaf_faithful(node),
    ensures
        leaf::parse_leaf(leaf::node_tag(node), leaf::node_id(node), leaf::leaf_body(node) + rest)
            == Ok::<(NodeModel, Seq<u8>), ProtocolError>((node, rest)),
{
    reveal(leaf::leaf_fits);
    reveal(leaf::leaf_faithful);
    reveal(leaf::leaf_body);
    reveal(leaf::parse_leaf);
    if let NodeModel::Rows { id, rows } = node {
        let list = item::bytes_of_all::<Row>(rows) + rest;
        assert(leaf::leaf_body(node) + rest == seq![rows.len() as u8] + list) by {
            broadcast use wire::lemma_concat_to_the_right;

        }
        wire::lemma_parse_u8(rows.len() as u8, list);
        item::lemma_all_read_back::<Row>(rows, rest);
    }
}

proof fn lemma_tile_grid_read_back(node: NodeModel, rest: Seq<u8>)
    requires
        node is TileGrid,
        leaf::leaf_fits(node),
        leaf::leaf_refusal(node) is None,
        leaf::leaf_faithful(node),
    ensures
        leaf::parse_leaf(leaf::node_tag(node), leaf::node_id(node), leaf::leaf_body(node) + rest)
            == Ok::<(NodeModel, Seq<u8>), ProtocolError>((node, rest)),
{
    reveal(leaf::leaf_fits);
    reveal(leaf::leaf_faithful);
    reveal(leaf::leaf_body);
    reveal(leaf::parse_leaf);
    if let NodeModel::TileGrid { id, tiles, shape } = node {
        let list = item::bytes_of_all::<Tile>(tiles) + rest;
        let counted = seq![tiles.len() as u8] + list;
        assert(leaf::leaf_body(node) + rest == seq![leaf::shape_tag(shape)] + counted) by {
            broadcast use wire::lemma_concat_to_the_right;

        }
        wire::lemma_parse_u8(leaf::shape_tag(shape), counted);
        wire::lemma_parse_u8(tiles.len() as u8, list);
        item::lemma_all_read_back::<Tile>(tiles, rest);
    }
}

proof fn lemma_picture_read_back(node: NodeModel, rest: Seq<u8>)
    requires
        node is Picture,
        leaf::leaf_fits(node),
        leaf::leaf_refusal(node) is None,
        leaf::leaf_faithful(node),
    ensures
        leaf::parse_leaf(leaf::node_tag(node), leaf::node_id(node), leaf::leaf_body(node) + rest)
            == Ok::<(NodeModel, Seq<u8>), ProtocolError>((node, rest)),
{
    reveal(leaf::leaf_fits);
    reveal(leaf::leaf_faithful);
    reveal(leaf::leaf_body);
    reveal(leaf::parse_leaf);
    broadcast use {wire::group_reading, parts::lemma_parse_picture};

    if let NodeModel::Picture { id, handle, source, max_height_tenths_mm, framed } = node {
        let after = wire::be16(max_height_tenths_mm) + (seq![wire::flag_byte(framed)] + rest);
        parts::lemma_parse_picture(TilePicture { handle, source }, after);
    }
}

proof fn lemma_table_read_back(node: NodeModel, rest: Seq<u8>)
    requires
        node is Table,
        leaf::leaf_fits(node),
        leaf::leaf_refusal(node) is None,
        leaf::leaf_faithful(node),
    ensures
        leaf::parse_leaf(leaf::node_tag(node), leaf::node_id(node), leaf::leaf_body(node) + rest)
            == Ok::<(NodeModel, Seq<u8>), ProtocolError>((node, rest)),
{
    reveal(leaf::leaf_fits);
    reveal(leaf::leaf_faithful);
    reveal(leaf::leaf_body);
    reveal(leaf::parse_leaf);
    broadcast use wire::group_reading;

    if let NodeModel::Table { id, rows, weights } = node {
        let after = seq![rows.len() as u8] + (item::bytes_of_all::<TableRow>(rows) + rest);
        item::lemma_all_read_back::<TableRow>(rows, rest);
        item::lemma_all_read_back::<u16>(weights, after);
    }
}

proof fn lemma_stepper_read_back(node: NodeModel, rest: Seq<u8>)
    requires
        node is Stepper,
        leaf::leaf_fits(node),
        leaf::leaf_refusal(node) is None,
        leaf::leaf_faithful(node),
    ensures
        leaf::parse_leaf(leaf::node_tag(node), leaf::node_id(node), leaf::leaf_body(node) + rest)
            == Ok::<(NodeModel, Seq<u8>), ProtocolError>((node, rest)),
{
    reveal(leaf::leaf_fits);
    reveal(leaf::leaf_faithful);
    reveal(leaf::leaf_body);
    reveal(leaf::parse_leaf);
    broadcast use wire::group_reading;

    if let NodeModel::Stepper { id, label, less, more, less_state, more_state, fill } = node {
        let after = seq![parts::control_tag(less_state)] + (seq![parts::control_tag(more_state)] + (
        seq![leaf::fill_byte(fill)] + rest));
        BarAction::lemma_read_back(more, after);
        BarAction::lemma_read_back(less, BarAction::bytes(more) + after);
    }
}

proof fn lemma_choice_read_back(node: NodeModel, rest: Seq<u8>)
    requires
        node is Choice,
        leaf::leaf_fits(node),
        leaf::leaf_refusal(node) is None,
        leaf::leaf_faithful(node),
    ensures
        leaf::parse_leaf(leaf::node_tag(node), leaf::node_id(node), leaf::leaf_body(node) + rest)
            == Ok::<(NodeModel, Seq<u8>), ProtocolError>((node, rest)),
{
    reveal(leaf::leaf_fits);
    reveal(leaf::leaf_faithful);
    reveal(leaf::leaf_body);
    reveal(leaf::parse_leaf);
    broadcast use wire::group_reading;

    if let NodeModel::Choice { id, prompt, options, selected, freeform } = node {
        let after = seq![leaf::answer_byte(selected, options.len() as int)] + (
        leaf::freeform_bytes(freeform) + rest);
        item::lemma_all_read_back::<BarAction>(options, after);
    }
}

proof fn lemma_banner_read_back(node: NodeModel, rest: Seq<u8>)
    requires
        node is Banner,
        leaf::leaf_fits(node),
        leaf::leaf_refusal(node) is None,
        leaf::leaf_faithful(node),
    ensures
        leaf::parse_leaf(leaf::node_tag(node), leaf::node_id(node), leaf::leaf_body(node) + rest)
            == Ok::<(NodeModel, Seq<u8>), ProtocolError>((node, rest)),
{
    reveal(leaf::leaf_fits);
    reveal(leaf::leaf_faithful);
    reveal(leaf::leaf_body);
    reveal(leaf::parse_leaf);
    broadcast use wire::group_reading;

}

proof fn lemma_skeleton_read_back(node: NodeModel, rest: Seq<u8>)
    requires
        node is Skeleton,
        leaf::leaf_fits(node),
        leaf::leaf_refusal(node) is None,
        leaf::leaf_faithful(node),
    ensures
        leaf::parse_leaf(leaf::node_tag(node), leaf::node_id(node), leaf::leaf_body(node) + rest)
            == Ok::<(NodeModel, Seq<u8>), ProtocolError>((node, rest)),
{
    reveal(leaf::leaf_fits);
    reveal(leaf::leaf_faithful);
    reveal(leaf::leaf_body);
    reveal(leaf::parse_leaf);
    broadcast use wire::group_reading;

}

proof fn lemma_splash_read_back(node: NodeModel, rest: Seq<u8>)
    requires
        node is Splash,
        leaf::leaf_fits(node),
        leaf::leaf_refusal(node) is None,
        leaf::leaf_faithful(node),
    ensures
        leaf::parse_leaf(leaf::node_tag(node), leaf::node_id(node), leaf::leaf_body(node) + rest)
            == Ok::<(NodeModel, Seq<u8>), ProtocolError>((node, rest)),
{
    reveal(leaf::leaf_fits);
    reveal(leaf::leaf_faithful);
    reveal(leaf::leaf_body);
    reveal(leaf::parse_leaf);
    broadcast use {wire::group_reading, parts::lemma_parse_mark};

}

proof fn lemma_progress_read_back_with(progress: Option<Percent>, rest: Seq<u8>)
    requires
        progress is Some ==> progress->0.is_share(),
    ensures
        leaf::parse_progress(leaf::progress_bytes(progress) + rest) == Ok::<
            (Option<Percent>, Seq<u8>),
            ProtocolError,
        >((progress, rest)),
{
    broadcast use wire::group_reading;

}

proof fn lemma_cancel_read_back(cancel: Option<BarActionModel>, rest: Seq<u8>)
    requires
        cancel is Some ==> BarAction::fits(cancel->0) && BarAction::faithful(cancel->0),
    ensures
        leaf::parse_cancel(leaf::cancel_bytes(cancel) + rest) == Ok::<
            (Option<BarActionModel>, Seq<u8>),
            ProtocolError,
        >((cancel, rest)),
{
    broadcast use {wire::lemma_concat_to_the_right, wire::lemma_parse_u8};

    if cancel is Some {
        BarAction::lemma_read_back(cancel->0, rest);
    }
}

proof fn lemma_transfer_read_back(transferred: Option<(u64, Option<u64>)>, rest: Seq<u8>)
    ensures
        leaf::parse_transfer(leaf::transfer_bytes(transferred) + rest) == Ok::<
            (Option<(u64, Option<u64>)>, Seq<u8>),
            ProtocolError,
        >((transferred, rest)),
{
    broadcast use wire::group_reading;

}

proof fn lemma_failure_read_back(failure: Option<TransferFailureModel>, rest: Seq<u8>)
    requires
        failure is Some ==> wire::text_fits(failure->0.reason),
    ensures
        leaf::parse_failure(leaf::failure_bytes(failure) + rest) == Ok::<
            (Option<TransferFailureModel>, Seq<u8>),
            ProtocolError,
        >((failure, rest)),
{
    broadcast use wire::group_reading;

}

proof fn lemma_activity_read_back(node: NodeModel, rest: Seq<u8>)
    requires
        node is Activity,
        leaf::leaf_fits(node),
        leaf::leaf_refusal(node) is None,
        leaf::leaf_faithful(node),
    ensures
        leaf::parse_leaf(leaf::node_tag(node), leaf::node_id(node), leaf::leaf_body(node) + rest)
            == Ok::<(NodeModel, Seq<u8>), ProtocolError>((node, rest)),
{
    reveal(leaf::leaf_fits);
    reveal(leaf::leaf_faithful);
    reveal(leaf::parse_leaf);
    if let NodeModel::Activity { id, label, progress, cancel, transferred, failure } = node {
        let after_transfer = leaf::failure_bytes(failure) + rest;
        let after_cancel = leaf::transfer_bytes(transferred) + after_transfer;
        let after_progress = leaf::cancel_bytes(cancel) + after_cancel;
        let after_label = leaf::progress_bytes(progress) + after_progress;
        assert(leaf::leaf_body(node) + rest == wire::text_bytes(label) + after_label) by {
            reveal(leaf::leaf_body);
            broadcast use wire::lemma_concat_to_the_right;

        }
        wire::lemma_parse_text(label, after_label);
        lemma_progress_read_back_with(progress, after_progress);
        lemma_cancel_read_back(cancel, after_cancel);
        lemma_transfer_read_back(transferred, after_transfer);
        lemma_failure_read_back(failure, rest);
    }
}

proof fn lemma_terminal_read_back(node: NodeModel, rest: Seq<u8>)
    requires
        node is Terminal,
        leaf::leaf_fits(node),
        leaf::leaf_refusal(node) is None,
        leaf::leaf_faithful(node),
    ensures
        leaf::parse_leaf(leaf::node_tag(node), leaf::node_id(node), leaf::leaf_body(node) + rest)
            == Ok::<(NodeModel, Seq<u8>), ProtocolError>((node, rest)),
{
    reveal(leaf::leaf_fits);
    reveal(leaf::leaf_faithful);
    reveal(leaf::leaf_body);
    reveal(leaf::parse_leaf);
    broadcast use wire::group_reading;

    if let NodeModel::Terminal { id, rows, cursor } = node {
        lists::lemma_rows_read_back(rows, leaf::cursor_bytes(cursor) + rest);
    }
}

/// A leaf that fits, is not refused and can be read at all is read back as it
/// was written.
pub proof fn lemma_leaf_read_back(node: NodeModel, rest: Seq<u8>)
    requires
        !leaf::is_container(node),
        leaf::leaf_fits(node),
        leaf::leaf_refusal(node) is None,
        leaf::leaf_faithful(node),
    ensures
        leaf::parse_leaf(leaf::node_tag(node), leaf::node_id(node), leaf::leaf_body(node) + rest)
            == Ok::<(NodeModel, Seq<u8>), ProtocolError>((node, rest)),
{
    match node {
        NodeModel::Heading { .. } => lemma_heading_read_back(node, rest),
        NodeModel::Text { .. } => lemma_text_read_back(node, rest),
        NodeModel::RichText { .. } => lemma_rich_text_read_back(node, rest),
        NodeModel::Secondary { .. } => lemma_secondary_read_back(node, rest),
        NodeModel::Section { .. } => lemma_section_read_back(node, rest),
        NodeModel::Quote { .. } => lemma_quote_read_back(node, rest),
        NodeModel::Button { .. } => lemma_button_read_back(node, rest),
        NodeModel::Field { .. } => lemma_field_read_back(node, rest),
        NodeModel::Chips { .. } => lemma_chips_read_back(node, rest),
        NodeModel::Tabs { .. } => lemma_tabs_read_back(node, rest),
        NodeModel::Facts { .. } => lemma_facts_read_back(node, rest),
        NodeModel::Divider { .. } => lemma_divider_read_back(node, rest),
        NodeModel::Flex { .. } => lemma_flex_read_back(node, rest),
        NodeModel::Spacer { .. } => lemma_spacer_read_back(node, rest),
        NodeModel::Progress { .. } => lemma_progress_read_back(node, rest),
        NodeModel::PagedList { .. } => lemma_paged_list_read_back(node, rest),
        NodeModel::Grid { .. } => lemma_grid_read_back(node, rest),
        NodeModel::Rows { .. } => lemma_rows_read_back(node, rest),
        NodeModel::TileGrid { .. } => lemma_tile_grid_read_back(node, rest),
        NodeModel::Picture { .. } => lemma_picture_read_back(node, rest),
        NodeModel::Table { .. } => lemma_table_read_back(node, rest),
        NodeModel::Stepper { .. } => lemma_stepper_read_back(node, rest),
        NodeModel::Choice { .. } => lemma_choice_read_back(node, rest),
        NodeModel::Banner { .. } => lemma_banner_read_back(node, rest),
        NodeModel::Skeleton { .. } => lemma_skeleton_read_back(node, rest),
        NodeModel::Splash { .. } => lemma_splash_read_back(node, rest),
        NodeModel::Activity { .. } => lemma_activity_read_back(node, rest),
        NodeModel::Terminal { .. } => lemma_terminal_read_back(node, rest),
        _ => {},
    }
}

} // verus!
