//! The wire forms of every node that holds no other node: what follows its tag
//! and its identifier.

use vstd::prelude::*;

use crate::error::ProtocolError;
use crate::item;
use crate::item::Wire;
use crate::limits::{
    MAX_CELLS, MAX_CHIPS, MAX_COLUMNS, MAX_FACTS, MAX_INLINE_FORMULAE, MAX_NODES, MAX_QUOTE_DEPTH,
    MAX_RICH_TEXT_SPANS, MAX_TABS, MAX_TERMINAL_ROWS, MAX_TEXT_LINKS,
};
use crate::lists;
use crate::parts;
use crate::prose;
use crate::ui::{
    ActionId, BannerLevel, BarAction, BarActionModel, Caret, Cell, Chip, Emphasis, Fold,
    FreeformModel, InlineFormula, NodeId, NodeModel, Percent, QuoteRole, RichTextSpan, Row, Space,
    TableRow, TextLink, Tile, TileShape, TransferFailureModel,
};
use crate::wire;

verus! {

// ---------------------------------------------------------------------------
// Single bytes that stand for something.

pub open spec fn role_tag(role: QuoteRole) -> u8 {
    match role {
        QuoteRole::Body => 0,
        QuoteRole::Byline => 1,
    }
}

pub open spec fn emphasis_tag(emphasis: Emphasis) -> u8 {
    match emphasis {
        Emphasis::Normal => 0,
        Emphasis::Primary => 1,
    }
}

pub open spec fn space_tag(space: Space) -> u8 {
    match space {
        Space::Tight => 0,
        Space::Small => 1,
        Space::Medium => 2,
        Space::Large => 3,
    }
}

pub open spec fn shape_tag(shape: TileShape) -> u8 {
    match shape {
        TileShape::Square => 0,
        TileShape::Portrait => 1,
    }
}

pub open spec fn level_tag(level: BannerLevel) -> u8 {
    match level {
        BannerLevel::Info => 0,
        BannerLevel::Attention => 1,
    }
}

/// The depth a quote is drawn at.
pub open spec fn drawn_depth(depth: u8) -> u8 {
    if depth <= MAX_QUOTE_DEPTH {
        depth
    } else {
        MAX_QUOTE_DEPTH
    }
}

/// Sent as one past the index, so that no answer yet is zero. An index naming
/// no option is no answer.
pub open spec fn answer_byte(selected: Option<u8>, count: int) -> u8 {
    match selected {
        None => 0,
        Some(index) => if index < count {
            (index + 1) as u8
        } else {
            0
        },
    }
}

pub open spec fn answer_of(byte: u8, count: int) -> Option<u8> {
    if byte == 0 || byte > count {
        None
    } else {
        Some((byte - 1) as u8)
    }
}

/// Sent as one past the reading, so that no track is zero.
pub open spec fn fill_byte(fill: Option<u8>) -> u8 {
    match fill {
        None => 0,
        Some(fill) => if fill < 100 {
            (fill + 1) as u8
        } else {
            101
        },
    }
}

/// Which tab is current, as a byte.
pub open spec fn tab_byte(selected: usize) -> u8 {
    if selected <= 255 {
        selected as u8
    } else {
        0
    }
}

// ---------------------------------------------------------------------------
// Parts that may be missing.

pub open spec fn fold_bytes(fold: Option<Fold>) -> Seq<u8> {
    match fold {
        None => seq![0u8],
        Some(fold) => seq![1u8] + wire::be32(fold.action.0) + seq![wire::flag_byte(
            fold.collapsed,
        )] + wire::be16(fold.hidden),
    }
}

/// Anything but the flag that is written means no fold.
pub open spec fn parse_fold(s: Seq<u8>) -> wire::Parsed<Option<Fold>> {
    match wire::parse_u8(s) {
        Err(e) => Err(e),
        Ok((flag, s)) => if flag != 1 {
            Ok((None, s))
        } else {
            match wire::parse_u32(s) {
                Err(e) => Err(e),
                Ok((action, s)) => match wire::parse_u8(s) {
                    Err(e) => Err(e),
                    Ok((collapsed, s)) => match wire::parse_u16(s) {
                        Err(e) => Err(e),
                        Ok((hidden, s)) => Ok(
                            (
                                Some(
                                    Fold {
                                        action: ActionId(action),
                                        collapsed: collapsed == 1,
                                        hidden,
                                    },
                                ),
                                s,
                            ),
                        ),
                    },
                },
            }
        },
    }
}

pub open spec fn clear_bytes(clear: Option<ActionId>) -> Seq<u8> {
    match clear {
        None => seq![0u8],
        Some(clear) => seq![1u8] + wire::be32(clear.0),
    }
}

pub open spec fn parse_clear(s: Seq<u8>) -> wire::Parsed<Option<ActionId>> {
    match wire::parse_u8(s) {
        Err(e) => Err(e),
        Ok((flag, s)) => if flag == 0 {
            Ok((None, s))
        } else if flag == 1 {
            match parts::parse_own_action(s) {
                Err(e) => Err(e),
                Ok((clear, s)) => Ok((Some(clear), s)),
            }
        } else {
            Err(ProtocolError::InvalidValue("field clear flag"))
        },
    }
}

pub open spec fn freeform_bytes(freeform: Option<FreeformModel>) -> Seq<u8> {
    match freeform {
        None => seq![0u8],
        Some(freeform) => seq![1u8] + wire::be32(freeform.action.0) + wire::text_bytes(
            freeform.placeholder,
        ),
    }
}

pub open spec fn parse_freeform(s: Seq<u8>) -> wire::Parsed<Option<FreeformModel>> {
    match wire::parse_u8(s) {
        Err(e) => Err(e),
        Ok((flag, s)) => if flag == 0 {
            Ok((None, s))
        } else if flag == 1 {
            match parts::parse_own_action(s) {
                Err(e) => Err(e),
                Ok((action, s)) => match wire::parse_text(s) {
                    Err(e) => Err(e),
                    Ok((placeholder, s)) => Ok((Some(FreeformModel { action, placeholder }), s)),
                },
            }
        } else {
            Err(ProtocolError::InvalidValue("freeform flag"))
        },
    }
}

pub open spec fn progress_bytes(progress: Option<Percent>) -> Seq<u8> {
    match progress {
        None => seq![0u8],
        Some(progress) => seq![1u8] + seq![progress.value],
    }
}

pub open spec fn parse_progress(s: Seq<u8>) -> wire::Parsed<Option<Percent>> {
    match wire::parse_u8(s) {
        Err(e) => Err(e),
        Ok((flag, s)) => if flag == 0 {
            Ok((None, s))
        } else if flag == 1 {
            match wire::parse_u8(s) {
                Err(e) => Err(e),
                Ok((value, s)) => Ok((Some(Percent::nearest(value)), s)),
            }
        } else {
            Err(ProtocolError::InvalidValue("activity progress flag"))
        },
    }
}

pub open spec fn cancel_bytes(cancel: Option<BarActionModel>) -> Seq<u8> {
    match cancel {
        None => seq![0u8],
        Some(cancel) => seq![1u8] + BarAction::bytes(cancel),
    }
}

pub open spec fn parse_cancel(s: Seq<u8>) -> wire::Parsed<Option<BarActionModel>> {
    match wire::parse_u8(s) {
        Err(e) => Err(e),
        Ok((flag, s)) => if flag == 0 {
            Ok((None, s))
        } else if flag == 1 {
            match BarAction::parse(s) {
                Err(e) => Err(e),
                Ok((cancel, s)) => Ok((Some(cancel), s)),
            }
        } else {
            Err(ProtocolError::InvalidValue("activity cancel flag"))
        },
    }
}

pub open spec fn total_bytes(total: Option<u64>) -> Seq<u8> {
    match total {
        None => seq![0u8],
        Some(total) => seq![1u8] + wire::be64(total),
    }
}

pub open spec fn parse_total(s: Seq<u8>) -> wire::Parsed<Option<u64>> {
    match wire::parse_u8(s) {
        Err(e) => Err(e),
        Ok((flag, s)) => if flag == 0 {
            Ok((None, s))
        } else if flag == 1 {
            match wire::parse_u64(s) {
                Err(e) => Err(e),
                Ok((total, s)) => Ok((Some(total), s)),
            }
        } else {
            Err(ProtocolError::InvalidValue("activity total flag"))
        },
    }
}

pub open spec fn transfer_bytes(transferred: Option<(u64, Option<u64>)>) -> Seq<u8> {
    match transferred {
        None => seq![0u8],
        Some((received, total)) => seq![1u8] + wire::be64(received) + total_bytes(total),
    }
}

pub open spec fn parse_transfer(s: Seq<u8>) -> wire::Parsed<Option<(u64, Option<u64>)>> {
    match wire::parse_u8(s) {
        Err(e) => Err(e),
        Ok((flag, s)) => if flag == 0 {
            Ok((None, s))
        } else if flag == 1 {
            match wire::parse_u64(s) {
                Err(e) => Err(e),
                Ok((received, s)) => match parse_total(s) {
                    Err(e) => Err(e),
                    Ok((total, s)) => Ok((Some((received, total)), s)),
                },
            }
        } else {
            Err(ProtocolError::InvalidValue("activity transfer flag"))
        },
    }
}

pub open spec fn failure_bytes(failure: Option<TransferFailureModel>) -> Seq<u8> {
    match failure {
        None => seq![0u8],
        Some(failure) => seq![1u8] + seq![wire::flag_byte(failure.resumable)] + wire::text_bytes(
            failure.reason,
        ),
    }
}

pub open spec fn parse_failure(s: Seq<u8>) -> wire::Parsed<Option<TransferFailureModel>> {
    match wire::parse_u8(s) {
        Err(e) => Err(e),
        Ok((flag, s)) => if flag == 0 {
            Ok((None, s))
        } else if flag == 1 {
            match wire::parse_flag(s, "activity resumable flag") {
                Err(e) => Err(e),
                Ok((resumable, s)) => match wire::parse_text(s) {
                    Err(e) => Err(e),
                    Ok((reason, s)) => Ok((Some(TransferFailureModel { reason, resumable }), s)),
                },
            }
        } else {
            Err(ProtocolError::InvalidValue("activity failure flag"))
        },
    }
}

pub open spec fn cursor_bytes(cursor: Option<Caret>) -> Seq<u8> {
    match cursor {
        None => seq![0u8],
        Some(caret) => seq![1u8] + wire::be16(caret.row) + wire::be16(caret.column),
    }
}

pub open spec fn parse_cursor(s: Seq<u8>) -> wire::Parsed<Option<Caret>> {
    match wire::parse_u8(s) {
        Err(e) => Err(e),
        Ok((flag, s)) => if flag == 0 {
            Ok((None, s))
        } else if flag == 1 {
            match wire::parse_u16(s) {
                Err(e) => Err(e),
                Ok((row, s)) => match wire::parse_u16(s) {
                    Err(e) => Err(e),
                    Ok((column, s)) => Ok((Some(Caret { row, column }), s)),
                },
            }
        } else {
            Err(ProtocolError::InvalidValue("terminal cursor flag"))
        },
    }
}

// ---------------------------------------------------------------------------
// What a node is written as.

pub open spec fn node_tag(node: NodeModel) -> u8 {
    match node {
        NodeModel::Heading { .. } => 1,
        NodeModel::Text { .. } => 2,
        NodeModel::Button { .. } => 3,
        NodeModel::Card { .. } => 4,
        NodeModel::Divider { .. } => 5,
        NodeModel::Spacer { .. } => 6,
        NodeModel::Progress { .. } => 7,
        NodeModel::PagedList { .. } => 8,
        NodeModel::TileGrid { .. } => 9,
        NodeModel::Choice { .. } => 10,
        NodeModel::Banner { .. } => 11,
        NodeModel::Skeleton { .. } => 12,
        NodeModel::Activity { .. } => 13,
        NodeModel::Rows { .. } => 14,
        NodeModel::Grid { .. } => 15,
        NodeModel::Terminal { .. } => 16,
        NodeModel::Picture { .. } => 17,
        NodeModel::Quote { .. } => 18,
        NodeModel::Secondary { .. } => 19,
        NodeModel::Splash { .. } => 20,
        NodeModel::Section { .. } => 21,
        NodeModel::Band { .. } => 22,
        NodeModel::Facts { .. } => 23,
        NodeModel::Field { .. } => 24,
        NodeModel::Chips { .. } => 25,
        NodeModel::Tabs { .. } => 26,
        NodeModel::Flex { .. } => 27,
        NodeModel::RichText { .. } => 28,
        NodeModel::Stepper { .. } => 29,
        NodeModel::Table { .. } => 30,
    }
}

pub open spec fn node_id(node: NodeModel) -> NodeId {
    match node {
        NodeModel::Heading { id, .. } => id,
        NodeModel::Text { id, .. } => id,
        NodeModel::Button { id, .. } => id,
        NodeModel::Card { id, .. } => id,
        NodeModel::Divider { id, .. } => id,
        NodeModel::Spacer { id, .. } => id,
        NodeModel::Progress { id, .. } => id,
        NodeModel::PagedList { id, .. } => id,
        NodeModel::TileGrid { id, .. } => id,
        NodeModel::Choice { id, .. } => id,
        NodeModel::Banner { id, .. } => id,
        NodeModel::Skeleton { id, .. } => id,
        NodeModel::Activity { id, .. } => id,
        NodeModel::Rows { id, .. } => id,
        NodeModel::Grid { id, .. } => id,
        NodeModel::Terminal { id, .. } => id,
        NodeModel::Picture { id, .. } => id,
        NodeModel::Quote { id, .. } => id,
        NodeModel::Secondary { id, .. } => id,
        NodeModel::Splash { id, .. } => id,
        NodeModel::Section { id, .. } => id,
        NodeModel::Band { id, .. } => id,
        NodeModel::Facts { id, .. } => id,
        NodeModel::Field { id, .. } => id,
        NodeModel::Chips { id, .. } => id,
        NodeModel::Tabs { id, .. } => id,
        NodeModel::Flex { id, .. } => id,
        NodeModel::RichText { id, .. } => id,
        NodeModel::Stepper { id, .. } => id,
        NodeModel::Table { id, .. } => id,
    }
}

/// Whether a node holds other nodes.
pub open spec fn is_container(node: NodeModel) -> bool {
    node is Card || node is Band
}

/// The bytes after a leaf's tag and identifier.
#[verifier::opaque]
pub open spec fn leaf_body(node: NodeModel) -> Seq<u8> {
    match node {
        NodeModel::Heading { id, text, level } => wire::text_bytes(text) + seq![level],
        NodeModel::Text { id, text, links } => {
            let sent = prose::at_most(links, MAX_TEXT_LINKS as int);
            wire::text_bytes(text) + seq![sent.len() as u8] + item::bytes_of_all::<TextLink>(sent)
        },
        NodeModel::RichText { id, text, spans, links, presentation, selection, formulae } => {
            let sent = prose::at_most(links, MAX_TEXT_LINKS as int);
            let drawn = prose::at_most(formulae, MAX_INLINE_FORMULAE as int);
            wire::text_bytes(text) + wire::be16(spans.len() as u16) + item::bytes_of_all::<
                RichTextSpan,
            >(spans) + prose::presentation_bytes(presentation) + seq![sent.len() as u8]
                + item::bytes_of_all::<TextLink>(sent) + prose::selection_bytes(selection)
                + seq![drawn.len() as u8] + item::bytes_of_all::<InlineFormula>(drawn)
        },
        NodeModel::Secondary { id, text } => wire::text_bytes(text),
        NodeModel::Section { id, title, value } => wire::text_bytes(title)
            + parts::trailing_bytes(value),
        NodeModel::Quote { id, depth, role, text, fold } => seq![drawn_depth(depth)]
            + seq![role_tag(role)] + fold_bytes(fold) + wire::text_bytes(text),
        NodeModel::Button { id, action, label, state, emphasis } => wire::be32(action.0)
            + seq![parts::control_tag(state)] + seq![emphasis_tag(emphasis)] + wire::text_bytes(
            label,
        ),
        NodeModel::Field { id, action, value, placeholder, clear } => wire::be32(action.0)
            + wire::text_bytes(value) + wire::text_bytes(placeholder) + clear_bytes(clear),
        NodeModel::Chips { id, chips } => {
            let sent = prose::at_most(chips, MAX_CHIPS as int);
            seq![sent.len() as u8] + item::bytes_of_all::<Chip>(sent)
        },
        NodeModel::Tabs { id, tabs, selected } => {
            let sent = prose::at_most(tabs, MAX_TABS as int);
            seq![sent.len() as u8] + seq![tab_byte(selected)] + lists::tabs_bytes(sent)
        },
        NodeModel::Facts { id, entries } => {
            let sent = prose::at_most(entries, MAX_FACTS as int);
            wire::be16(sent.len() as u16) + item::bytes_of_all::<(String, String)>(sent)
        },
        NodeModel::Divider { id } => Seq::empty(),
        NodeModel::Flex { id } => Seq::empty(),
        NodeModel::Spacer { id, space } => seq![space_tag(space)],
        NodeModel::Progress { id, value } => seq![value.value],
        NodeModel::PagedList { id, page, items } => wire::be16(page) + wire::be16(
            items.len() as u16,
        ) + item::bytes_of_all::<String>(items),
        NodeModel::Grid { id, columns, square, cells } => seq![columns] + seq![wire::flag_byte(
            square,
        )] + seq![cells.len() as u8] + item::bytes_of_all::<Cell>(cells),
        NodeModel::Rows { id, rows } => seq![rows.len() as u8] + item::bytes_of_all::<Row>(rows),
        NodeModel::TileGrid { id, tiles, shape } => seq![shape_tag(shape)] + seq![tiles.len() as u8]
            + item::bytes_of_all::<Tile>(tiles),
        NodeModel::Picture { id, handle, source, max_height_tenths_mm, framed } => wire::be32(
            handle.0,
        ) + wire::be32(source.0) + wire::be32(source.1) + wire::be16(max_height_tenths_mm)
            + seq![wire::flag_byte(framed)],
        NodeModel::Table { id, rows, weights } => seq![weights.len() as u8] + item::bytes_of_all::<
            u16,
        >(weights) + seq![rows.len() as u8] + item::bytes_of_all::<TableRow>(rows),
        NodeModel::Stepper { id, label, less, more, less_state, more_state, fill } =>
            wire::text_bytes(label) + BarAction::bytes(less) + BarAction::bytes(more)
            + seq![parts::control_tag(less_state)] + seq![parts::control_tag(more_state)]
            + seq![fill_byte(fill)],
        NodeModel::Choice { id, prompt, options, selected, freeform } => wire::text_bytes(prompt)
            + seq![options.len() as u8] + item::bytes_of_all::<BarAction>(options)
            + seq![answer_byte(selected, options.len() as int)] + freeform_bytes(freeform),
        NodeModel::Banner { id, level, text } => seq![level_tag(level)] + wire::text_bytes(text),
        NodeModel::Skeleton { id, lines } => seq![lines],
        NodeModel::Splash { id, glyph, title, summary } => parts::mark_bytes(glyph)
            + wire::text_bytes(title) + wire::text_bytes(summary),
        NodeModel::Activity { id, label, progress, cancel, transferred, failure } =>
            wire::text_bytes(label) + progress_bytes(progress) + cancel_bytes(cancel)
            + transfer_bytes(transferred) + failure_bytes(failure),
        NodeModel::Terminal { id, rows, cursor } => seq![rows.len() as u8] + item::bytes_of_all::<
            String,
        >(rows) + cursor_bytes(cursor),
        NodeModel::Card { .. } => Seq::empty(),
        NodeModel::Band { .. } => Seq::empty(),
    }
}

/// Whether every part of a leaf is within what its length prefixes can say.
#[verifier::opaque]
pub open spec fn leaf_fits(node: NodeModel) -> bool {
    match node {
        NodeModel::Heading { id, text, level } => wire::text_fits(text),
        NodeModel::Text { id, text, links } => wire::text_fits(text),
        NodeModel::RichText { id, text, spans, links, presentation, selection, formulae } => {
            wire::text_fits(text) && spans.len() <= MAX_RICH_TEXT_SPANS
        },
        NodeModel::Secondary { id, text } => wire::text_fits(text),
        NodeModel::Section { id, title, value } => wire::text_fits(title) && parts::optional_fits(
            value,
        ),
        NodeModel::Quote { id, depth, role, text, fold } => wire::text_fits(text),
        NodeModel::Button { id, action, label, state, emphasis } => wire::text_fits(label),
        NodeModel::Field { id, action, value, placeholder, clear } => wire::text_fits(value)
            && wire::text_fits(placeholder),
        NodeModel::Chips { id, chips } => item::all_fit::<Chip>(
            prose::at_most(chips, MAX_CHIPS as int),
        ),
        NodeModel::Tabs { id, tabs, selected } => lists::tabs_fit(
            prose::at_most(tabs, MAX_TABS as int),
        ),
        NodeModel::Facts { id, entries } => item::all_fit::<(String, String)>(
            prose::at_most(entries, MAX_FACTS as int),
        ),
        NodeModel::PagedList { id, page, items } => items.len() <= MAX_NODES && item::all_fit::<
            String,
        >(items),
        NodeModel::Grid { id, columns, square, cells } => cells.len() <= 255 && item::all_fit::<
            Cell,
        >(cells),
        NodeModel::Rows { id, rows } => rows.len() <= 255 && item::all_fit::<Row>(rows),
        NodeModel::TileGrid { id, tiles, shape } => tiles.len() <= 255 && item::all_fit::<Tile>(
            tiles,
        ),
        NodeModel::Table { id, rows, weights } => rows.len() <= 255 && weights.len() <= 255
            && item::all_fit::<TableRow>(rows),
        NodeModel::Stepper { id, label, less, more, less_state, more_state, fill } =>
            wire::text_fits(label) && BarAction::fits(less) && BarAction::fits(more),
        NodeModel::Choice { id, prompt, options, selected, freeform } => wire::text_fits(prompt)
            && options.len() <= 255 && item::all_fit::<BarAction>(options) && (freeform is Some
            ==> wire::text_fits(freeform->0.placeholder)),
        NodeModel::Banner { id, level, text } => wire::text_fits(text),
        NodeModel::Splash { id, glyph, title, summary } => wire::text_fits(title)
            && wire::text_fits(summary),
        NodeModel::Activity { id, label, progress, cancel, transferred, failure } =>
            wire::text_fits(label) && (cancel is Some ==> BarAction::fits(cancel->0)) && (
        failure is Some ==> wire::text_fits(failure->0.reason)),
        NodeModel::Terminal { id, rows, cursor } => rows.len() <= MAX_TERMINAL_ROWS
            && item::all_fit::<String>(rows) && lists::all_rows(rows),
        _ => true,
    }
}

/// Why a leaf is refused when it is written although it was counted: a styled
/// span or a formula that is no run of its paragraph.
pub open spec fn leaf_refusal(node: NodeModel) -> Option<ProtocolError> {
    match node {
        NodeModel::RichText { id, text, spans, links, presentation, selection, formulae } => {
            if !prose::spans_land(spans, text) {
                Some(ProtocolError::InvalidValue("rich text span"))
            } else if !prose::formulae_land(
                prose::at_most(formulae, MAX_INLINE_FORMULAE as int),
                text,
            ) {
                Some(ProtocolError::InvalidValue("inline formula"))
            } else {
                None
            }
        },
        _ => None,
    }
}

/// Whether a leaf says nothing that the wire would drop, clip or refuse.
#[verifier::opaque]
pub open spec fn leaf_faithful(node: NodeModel) -> bool {
    match node {
        NodeModel::Text { id, text, links } => links.len() <= MAX_TEXT_LINKS
            && prose::links_land(links, text),
        NodeModel::RichText { id, text, spans, links, presentation, selection, formulae } => {
            &&& links.len() <= MAX_TEXT_LINKS
            &&& prose::links_land(links, text)
            &&& prose::presentation_in_bounds(presentation)
            &&& prose::formulae_in_order(formulae, text)
        },
        NodeModel::Quote { id, depth, role, text, fold } => depth <= MAX_QUOTE_DEPTH,
        NodeModel::Field { id, action, value, placeholder, clear } => !action.is_reserved_spec()
            && parts::is_own(clear),
        NodeModel::Chips { id, chips } => chips.len() <= MAX_CHIPS && item::all_faithful::<Chip>(
            chips,
        ),
        NodeModel::Tabs { id, tabs, selected } => tabs.len() <= MAX_TABS && lists::tabs_faithful(
            tabs,
        ) && (selected < tabs.len() || selected == 0),
        NodeModel::Facts { id, entries } => entries.len() <= MAX_FACTS,
        NodeModel::Progress { id, value } => value.is_share(),
        NodeModel::Grid { id, columns, square, cells } => 1 <= columns <= MAX_COLUMNS
            && cells.len() <= MAX_CELLS && item::all_faithful::<Cell>(cells),
        NodeModel::Rows { id, rows } => item::all_faithful::<Row>(rows),
        NodeModel::TileGrid { id, tiles, shape } => item::all_faithful::<Tile>(tiles),
        NodeModel::Stepper { id, label, less, more, less_state, more_state, fill } =>
            BarAction::faithful(less) && BarAction::faithful(more) && (fill is Some ==> fill->0
            <= 100),
        NodeModel::Choice { id, prompt, options, selected, freeform } => {
            &&& item::all_faithful::<BarAction>(options)
            &&& selected is Some ==> selected->0 < options.len()
            &&& freeform is Some ==> !freeform->0.action.is_reserved_spec()
            &&& options.len() > 0 || freeform is Some
        },
        NodeModel::Activity { id, label, progress, cancel, transferred, failure } => (
        progress is Some ==> progress->0.is_share()) && (cancel is Some ==> BarAction::faithful(
            cancel->0,
        )),
        _ => true,
    }
}

/// The length of a leaf, its tag and its identifier, or why there is none.
#[verifier::opaque]
pub open spec fn leaf_grown(node: NodeModel) -> Result<int, ProtocolError> {
    match node {
        NodeModel::Heading { id, text, level } => wire::grown_text(Ok(6), text),
        NodeModel::Text { id, text, links } => item::grown_by_all::<TextLink>(
            prose::at_most(links, MAX_TEXT_LINKS as int),
            wire::grown_text(Ok(6), text),
        ),
        NodeModel::RichText { id, text, spans, links, presentation, selection, formulae } => {
            if spans.len() > MAX_RICH_TEXT_SPANS {
                Err(ProtocolError::TooManyNodes)
            } else {
                let with_spans = wire::grown(
                    wire::grown_text(Ok(5), text),
                    (2 + spans.len() * 9 + 9 + 1 + 1) as int,
                );
                let with_links = item::grown_by_all::<TextLink>(
                    prose::at_most(links, MAX_TEXT_LINKS as int),
                    with_spans,
                );
                let with_selection = wire::grown(
                    with_links,
                    if selection is Some {
                        12
                    } else {
                        0
                    },
                );
                item::grown_by_all::<InlineFormula>(
                    prose::at_most(formulae, MAX_INLINE_FORMULAE as int),
                    wire::grown(with_selection, 1),
                )
            }
        },
        NodeModel::Secondary { id, text } => wire::grown_text(Ok(5), text),
        NodeModel::Section { id, title, value } => wire::grown_optional_text(
            wire::grown_text(Ok(6), title),
            value,
        ),
        NodeModel::Quote { id, depth, role, text, fold } => wire::grown_text(
            Ok(
                if fold is Some {
                    15
                } else {
                    8
                },
            ),
            text,
        ),
        NodeModel::Button { id, action, label, state, emphasis } => wire::grown_text(Ok(11), label),
        NodeModel::Field { id, action, value, placeholder, clear } => wire::grown(
            wire::grown_text(wire::grown_text(Ok(10), value), placeholder),
            if clear is Some {
                4
            } else {
                0
            },
        ),
        NodeModel::Chips { id, chips } => item::grown_by_all::<Chip>(
            prose::at_most(chips, MAX_CHIPS as int),
            Ok(6),
        ),
        NodeModel::Tabs { id, tabs, selected } => lists::grown_by_tabs(
            prose::at_most(tabs, MAX_TABS as int),
            Ok(7),
        ),
        NodeModel::Facts { id, entries } => item::grown_by_all::<(String, String)>(
            prose::at_most(entries, MAX_FACTS as int),
            Ok(7),
        ),
        NodeModel::Divider { id } => Ok(5),
        NodeModel::Spacer { id, space } => Ok(6),
        NodeModel::Flex { id } => Ok(5),
        NodeModel::Progress { id, value } => Ok(6),
        NodeModel::PagedList { id, page, items } => if items.len() > MAX_NODES {
            Err(ProtocolError::TooManyNodes)
        } else {
            item::grown_by_all::<String>(items, Ok(9))
        },
        NodeModel::Grid { id, columns, square, cells } => if cells.len() > 255 {
            Err(ProtocolError::TooManyNodes)
        } else {
            item::grown_by_all::<Cell>(cells, Ok(8))
        },
        NodeModel::Rows { id, rows } => if rows.len() > 255 {
            Err(ProtocolError::TooManyNodes)
        } else {
            item::grown_by_all::<Row>(rows, Ok(6))
        },
        NodeModel::TileGrid { id, tiles, shape } => if tiles.len() > 255 {
            Err(ProtocolError::TooManyNodes)
        } else {
            item::grown_by_all::<Tile>(tiles, Ok(7))
        },
        NodeModel::Picture { .. } => Ok(20),
        NodeModel::Table { id, rows, weights } => if rows.len() > 255 || weights.len() > 255 {
            Err(ProtocolError::TooManyNodes)
        } else {
            item::grown_by_all::<TableRow>(rows, wire::grown(Ok(7), (weights.len() * 2) as int))
        },
        NodeModel::Stepper { id, label, less, more, less_state, more_state, fill } =>
            grown_by_bar_action(
            grown_by_bar_action(wire::grown_text(Ok(8), label), less),
            more,
        ),
        NodeModel::Choice { id, prompt, options, selected, freeform } => if options.len() > 255 {
            Err(ProtocolError::TooManyNodes)
        } else {
            let with_options = item::grown_by_all::<BarAction>(
                options,
                wire::grown_text(Ok(8), prompt),
            );
            match freeform {
                None => with_options,
                Some(freeform) => wire::grown_text(
                    wire::grown(with_options, 4),
                    freeform.placeholder,
                ),
            }
        },
        NodeModel::Banner { id, level, text } => wire::grown_text(Ok(6), text),
        NodeModel::Skeleton { .. } => Ok(6),
        NodeModel::Splash { id, glyph, title, summary } => wire::grown_text(
            wire::grown_text(
                Ok(
                    if glyph is Some {
                        7
                    } else {
                        6
                    },
                ),
                title,
            ),
            summary,
        ),
        NodeModel::Activity { id, label, progress, cancel, transferred, failure } => {
            let with_progress = wire::grown(
                wire::grown_text(Ok(7), label),
                if progress is Some {
                    2
                } else {
                    1
                },
            );
            let with_transfer = wire::grown(
                with_progress,
                match transferred {
                    None => 0,
                    Some((_, None)) => 9,
                    Some((_, Some(_))) => 17,
                },
            );
            let with_flag = wire::grown(with_transfer, 1);
            let with_failure = match failure {
                None => with_flag,
                Some(failure) => wire::grown_text(wire::grown(with_flag, 1), failure.reason),
            };
            match cancel {
                None => with_failure,
                Some(cancel) => grown_by_bar_action(with_failure, cancel),
            }
        },
        NodeModel::Terminal { id, rows, cursor } => if rows.len() > MAX_TERMINAL_ROWS {
            Err(ProtocolError::TooManyNodes)
        } else {
            wire::grown(
                lists::grown_by_rows(rows, Ok(6)),
                if cursor is Some {
                    5
                } else {
                    1
                },
            )
        },
        NodeModel::Card { .. } => Ok(5),
        NodeModel::Band { .. } => Ok(5),
    }
}

/// A running length after one bar action.
pub open spec fn grown_by_bar_action(
    total: Result<int, ProtocolError>,
    action: BarActionModel,
) -> Result<int, ProtocolError> {
    match total {
        Err(e) => Err(e),
        Ok(so_far) => BarAction::grown(action, so_far),
    }
}

// ---------------------------------------------------------------------------
// What reading makes of the bytes after a leaf's tag and identifier.

pub open spec fn parse_heading(id: NodeId, s: Seq<u8>) -> wire::Parsed<NodeModel> {
    match wire::parse_text(s) {
        Err(e) => Err(e),
        Ok((text, s)) => match wire::parse_u8(s) {
            Err(e) => Err(e),
            Ok((level, s)) => Ok((NodeModel::Heading { id, text, level }, s)),
        },
    }
}

/// Links are kept only where they land: one in the wrong place is worse than
/// none.
pub open spec fn parse_text_node(id: NodeId, s: Seq<u8>) -> wire::Parsed<NodeModel> {
    match wire::parse_text(s) {
        Err(e) => Err(e),
        Ok((text, s)) => match wire::parse_u8(s) {
            Err(e) => Err(e),
            Ok((count, s)) => match item::parse_all::<TextLink>(s, count as nat) {
                Err(e) => Err(e),
                Ok((links, s)) => Ok(
                    (NodeModel::Text { id, text, links: prose::landed_links(links, text) }, s),
                ),
            },
        },
    }
}

pub open spec fn parse_rich_text(id: NodeId, s: Seq<u8>) -> wire::Parsed<NodeModel> {
    match wire::parse_text(s) {
        Err(e) => Err(e),
        Ok((text, s)) => match wire::parse_u16(s) {
            Err(e) => Err(e),
            Ok((count, s)) => if count > MAX_RICH_TEXT_SPANS {
                Err(ProtocolError::TooManyNodes)
            } else {
                match prose::parse_spans(s, count as nat, text) {
                    Err(e) => Err(e),
                    Ok((spans, s)) => parse_rest_of_rich_text(id, text, spans, s),
                }
            },
        },
    }
}

pub open spec fn parse_rest_of_rich_text(
    id: NodeId,
    text: Seq<char>,
    spans: Seq<RichTextSpan>,
    s: Seq<u8>,
) -> wire::Parsed<NodeModel> {
    match prose::parse_presentation(s) {
        Err(e) => Err(e),
        Ok((presentation, s)) => match wire::parse_u8(s) {
            Err(e) => Err(e),
            Ok((count, s)) => match item::parse_all::<TextLink>(s, count as nat) {
                Err(e) => Err(e),
                Ok((links, s)) => match prose::parse_selection(s) {
                    Err(e) => Err(e),
                    Ok((selection, s)) => match wire::parse_u8(s) {
                        Err(e) => Err(e),
                        Ok((count, s)) => match item::parse_all::<InlineFormula>(s, count as nat) {
                            Err(e) => Err(e),
                            Ok((formulae, s)) => Ok(
                                (
                                    NodeModel::RichText {
                                        id,
                                        text,
                                        spans,
                                        links: prose::at_most(
                                            prose::landed_links(links, text),
                                            MAX_TEXT_LINKS as int,
                                        ),
                                        presentation,
                                        selection,
                                        formulae: prose::joined_formulae(
                                            Seq::empty(),
                                            formulae,
                                            text,
                                        ),
                                    },
                                    s,
                                ),
                            ),
                        },
                    },
                },
            },
        },
    }
}

pub open spec fn parse_secondary(id: NodeId, s: Seq<u8>) -> wire::Parsed<NodeModel> {
    match wire::parse_text(s) {
        Err(e) => Err(e),
        Ok((text, s)) => Ok((NodeModel::Secondary { id, text }, s)),
    }
}

pub open spec fn parse_section(id: NodeId, s: Seq<u8>) -> wire::Parsed<NodeModel> {
    match wire::parse_text(s) {
        Err(e) => Err(e),
        Ok((title, s)) => match parts::parse_trailing(s) {
            Err(e) => Err(e),
            Ok((value, s)) => Ok((NodeModel::Section { id, title, value }, s)),
        },
    }
}

/// A depth past the cap is a deeper reply, and a role nobody knows is prose.
pub open spec fn parse_quote(id: NodeId, s: Seq<u8>) -> wire::Parsed<NodeModel> {
    match wire::parse_u8(s) {
        Err(e) => Err(e),
        Ok((depth, s)) => match wire::parse_u8(s) {
            Err(e) => Err(e),
            Ok((role, s)) => match parse_fold(s) {
                Err(e) => Err(e),
                Ok((fold, s)) => match wire::parse_text(s) {
                    Err(e) => Err(e),
                    Ok((text, s)) => Ok(
                        (
                            NodeModel::Quote {
                                id,
                                depth: drawn_depth(depth),
                                role: if role == 1 {
                                    QuoteRole::Byline
                                } else {
                                    QuoteRole::Body
                                },
                                text,
                                fold,
                            },
                            s,
                        ),
                    ),
                },
            },
        },
    }
}

/// An emphasis nobody knows is the quiet one.
pub open spec fn parse_button(id: NodeId, s: Seq<u8>) -> wire::Parsed<NodeModel> {
    match wire::parse_u32(s) {
        Err(e) => Err(e),
        Ok((action, s)) => match parts::parse_control(s, "control state") {
            Err(e) => Err(e),
            Ok((state, s)) => match wire::parse_u8(s) {
                Err(e) => Err(e),
                Ok((emphasis, s)) => match wire::parse_text(s) {
                    Err(e) => Err(e),
                    Ok((label, s)) => Ok(
                        (
                            NodeModel::Button {
                                id,
                                action: ActionId(action),
                                label,
                                state,
                                emphasis: if emphasis == 1 {
                                    Emphasis::Primary
                                } else {
                                    Emphasis::Normal
                                },
                            },
                            s,
                        ),
                    ),
                },
            },
        },
    }
}

pub open spec fn parse_field(id: NodeId, s: Seq<u8>) -> wire::Parsed<NodeModel> {
    match parts::parse_own_action(s) {
        Err(e) => Err(e),
        Ok((action, s)) => match wire::parse_text(s) {
            Err(e) => Err(e),
            Ok((value, s)) => match wire::parse_text(s) {
                Err(e) => Err(e),
                Ok((placeholder, s)) => match parse_clear(s) {
                    Err(e) => Err(e),
                    Ok((clear, s)) => Ok(
                        (NodeModel::Field { id, action, value, placeholder, clear }, s),
                    ),
                },
            },
        },
    }
}

pub open spec fn parse_chips(id: NodeId, s: Seq<u8>) -> wire::Parsed<NodeModel> {
    match wire::parse_u8(s) {
        Err(e) => Err(e),
        Ok((count, s)) => if count > MAX_CHIPS {
            Err(ProtocolError::TooManyNodes)
        } else {
            match item::parse_all::<Chip>(s, count as nat) {
                Err(e) => Err(e),
                Ok((chips, s)) => Ok((NodeModel::Chips { id, chips }, s)),
            }
        },
    }
}

/// A selection naming no tab shows the first one.
pub open spec fn parse_tabs_node(id: NodeId, s: Seq<u8>) -> wire::Parsed<NodeModel> {
    match wire::parse_u8(s) {
        Err(e) => Err(e),
        Ok((count, s)) => if count > MAX_TABS {
            Err(ProtocolError::TooManyNodes)
        } else {
            match wire::parse_u8(s) {
                Err(e) => Err(e),
                Ok((selected, s)) => match lists::parse_tabs(s, count as nat) {
                    Err(e) => Err(e),
                    Ok((tabs, s)) => Ok(
                        (
                            NodeModel::Tabs {
                                id,
                                tabs,
                                selected: if selected < tabs.len() {
                                    selected as usize
                                } else {
                                    0
                                },
                            },
                            s,
                        ),
                    ),
                },
            }
        },
    }
}

pub open spec fn parse_facts(id: NodeId, s: Seq<u8>) -> wire::Parsed<NodeModel> {
    match wire::parse_u16(s) {
        Err(e) => Err(e),
        Ok((count, s)) => if count > MAX_FACTS {
            Err(ProtocolError::TooManyNodes)
        } else {
            match item::parse_all::<(String, String)>(s, count as nat) {
                Err(e) => Err(e),
                Ok((entries, s)) => Ok((NodeModel::Facts { id, entries }, s)),
            }
        },
    }
}

pub open spec fn parse_spacer(id: NodeId, s: Seq<u8>) -> wire::Parsed<NodeModel> {
    match wire::parse_u8(s) {
        Err(e) => Err(e),
        Ok((tag, s)) => if tag == 0 {
            Ok((NodeModel::Spacer { id, space: Space::Tight }, s))
        } else if tag == 1 {
            Ok((NodeModel::Spacer { id, space: Space::Small }, s))
        } else if tag == 2 {
            Ok((NodeModel::Spacer { id, space: Space::Medium }, s))
        } else if tag == 3 {
            Ok((NodeModel::Spacer { id, space: Space::Large }, s))
        } else {
            Err(ProtocolError::InvalidValue("spacer scale"))
        },
    }
}

pub open spec fn parse_progress_node(id: NodeId, s: Seq<u8>) -> wire::Parsed<NodeModel> {
    match wire::parse_u8(s) {
        Err(e) => Err(e),
        Ok((value, s)) => Ok((NodeModel::Progress { id, value: Percent::nearest(value) }, s)),
    }
}

pub open spec fn parse_paged_list(id: NodeId, s: Seq<u8>) -> wire::Parsed<NodeModel> {
    match wire::parse_u16(s) {
        Err(e) => Err(e),
        Ok((page, s)) => match wire::parse_u16(s) {
            Err(e) => Err(e),
            Ok((count, s)) => if count > MAX_NODES {
                Err(ProtocolError::TooManyNodes)
            } else {
                match item::parse_all::<String>(s, count as nat) {
                    Err(e) => Err(e),
                    Ok((items, s)) => Ok((NodeModel::PagedList { id, page, items }, s)),
                }
            },
        },
    }
}

pub open spec fn parse_grid(id: NodeId, s: Seq<u8>) -> wire::Parsed<NodeModel> {
    match wire::parse_u8(s) {
        Err(e) => Err(e),
        Ok((columns, s)) => if columns == 0 || columns > MAX_COLUMNS {
            Err(ProtocolError::InvalidValue("grid columns"))
        } else {
            match wire::parse_flag(s, "grid square flag") {
                Err(e) => Err(e),
                Ok((square, s)) => match wire::parse_u8(s) {
                    Err(e) => Err(e),
                    Ok((count, s)) => if count > MAX_CELLS {
                        Err(ProtocolError::TooManyNodes)
                    } else {
                        match item::parse_all::<Cell>(s, count as nat) {
                            Err(e) => Err(e),
                            Ok((cells, s)) => Ok((NodeModel::Grid { id, columns, square, cells }, s)),
                        }
                    },
                },
            }
        },
    }
}

pub open spec fn parse_rows_node(id: NodeId, s: Seq<u8>) -> wire::Parsed<NodeModel> {
    match wire::parse_u8(s) {
        Err(e) => Err(e),
        Ok((count, s)) => match item::parse_all::<Row>(s, count as nat) {
            Err(e) => Err(e),
            Ok((rows, s)) => Ok((NodeModel::Rows { id, rows }, s)),
        },
    }
}

pub open spec fn parse_shape(s: Seq<u8>) -> wire::Parsed<TileShape> {
    match wire::parse_u8(s) {
        Err(e) => Err(e),
        Ok((tag, s)) => if tag == 0 {
            Ok((TileShape::Square, s))
        } else if tag == 1 {
            Ok((TileShape::Portrait, s))
        } else {
            Err(ProtocolError::InvalidValue("tile shape"))
        },
    }
}

pub open spec fn parse_tile_grid(id: NodeId, s: Seq<u8>) -> wire::Parsed<NodeModel> {
    match parse_shape(s) {
        Err(e) => Err(e),
        Ok((shape, s)) => match wire::parse_u8(s) {
            Err(e) => Err(e),
            Ok((count, s)) => match item::parse_all::<Tile>(s, count as nat) {
                Err(e) => Err(e),
                Ok((tiles, s)) => Ok((NodeModel::TileGrid { id, tiles, shape }, s)),
            },
        },
    }
}

pub open spec fn parse_picture_node(id: NodeId, s: Seq<u8>) -> wire::Parsed<NodeModel> {
    match parts::parse_picture(s) {
        Err(e) => Err(e),
        Ok((picture, s)) => match wire::parse_u16(s) {
            Err(e) => Err(e),
            Ok((height, s)) => match wire::parse_u8(s) {
                Err(e) => Err(e),
                Ok((framed, s)) => Ok(
                    (
                        NodeModel::Picture {
                            id,
                            handle: picture.handle,
                            source: picture.source,
                            max_height_tenths_mm: height,
                            framed: framed != 0,
                        },
                        s,
                    ),
                ),
            },
        },
    }
}

pub open spec fn parse_table(id: NodeId, s: Seq<u8>) -> wire::Parsed<NodeModel> {
    match wire::parse_u8(s) {
        Err(e) => Err(e),
        Ok((count, s)) => match item::parse_all::<u16>(s, count as nat) {
            Err(e) => Err(e),
            Ok((weights, s)) => match wire::parse_u8(s) {
                Err(e) => Err(e),
                Ok((count, s)) => match item::parse_all::<TableRow>(s, count as nat) {
                    Err(e) => Err(e),
                    Ok((rows, s)) => Ok((NodeModel::Table { id, rows, weights }, s)),
                },
            },
        },
    }
}

pub open spec fn parse_fill(s: Seq<u8>) -> wire::Parsed<Option<u8>> {
    match wire::parse_u8(s) {
        Err(e) => Err(e),
        Ok((marked, s)) => if marked == 0 {
            Ok((None, s))
        } else if marked <= 101 {
            Ok((Some((marked - 1) as u8), s))
        } else {
            Err(ProtocolError::InvalidValue("stepper fill"))
        },
    }
}

pub open spec fn parse_stepper(id: NodeId, s: Seq<u8>) -> wire::Parsed<NodeModel> {
    match wire::parse_text(s) {
        Err(e) => Err(e),
        Ok((label, s)) => match BarAction::parse(s) {
            Err(e) => Err(e),
            Ok((less, s)) => match BarAction::parse(s) {
                Err(e) => Err(e),
                Ok((more, s)) => match parts::parse_control(s, "stepper control state") {
                    Err(e) => Err(e),
                    Ok((less_state, s)) => match parts::parse_control(s, "stepper control state") {
                        Err(e) => Err(e),
                        Ok((more_state, s)) => match parse_fill(s) {
                            Err(e) => Err(e),
                            Ok((fill, s)) => Ok(
                                (
                                    NodeModel::Stepper {
                                        id,
                                        label,
                                        less,
                                        more,
                                        less_state,
                                        more_state,
                                        fill,
                                    },
                                    s,
                                ),
                            ),
                        },
                    },
                },
            },
        },
    }
}

/// An answer naming no option is no answer; a choice with no answers to give
/// is refused.
pub open spec fn parse_choice(id: NodeId, s: Seq<u8>) -> wire::Parsed<NodeModel> {
    match wire::parse_text(s) {
        Err(e) => Err(e),
        Ok((prompt, s)) => match wire::parse_u8(s) {
            Err(e) => Err(e),
            Ok((count, s)) => match item::parse_all::<BarAction>(s, count as nat) {
                Err(e) => Err(e),
                Ok((options, s)) => match wire::parse_u8(s) {
                    Err(e) => Err(e),
                    Ok((marked, s)) => match parse_freeform(s) {
                        Err(e) => Err(e),
                        Ok((freeform, s)) => if options.len() == 0 && freeform is None {
                            Err(ProtocolError::InvalidValue("choice with no answers"))
                        } else {
                            Ok(
                                (
                                    NodeModel::Choice {
                                        id,
                                        prompt,
                                        options,
                                        selected: answer_of(marked, options.len() as int),
                                        freeform,
                                    },
                                    s,
                                ),
                            )
                        },
                    },
                },
            },
        },
    }
}

pub open spec fn parse_banner(id: NodeId, s: Seq<u8>) -> wire::Parsed<NodeModel> {
    match parse_level(s) {
        Err(e) => Err(e),
        Ok((level, s)) => match wire::parse_text(s) {
            Err(e) => Err(e),
            Ok((text, s)) => Ok((NodeModel::Banner { id, level, text }, s)),
        },
    }
}

pub open spec fn parse_level(s: Seq<u8>) -> wire::Parsed<BannerLevel> {
    match wire::parse_u8(s) {
        Err(e) => Err(e),
        Ok((tag, s)) => if tag == 0 {
            Ok((BannerLevel::Info, s))
        } else if tag == 1 {
            Ok((BannerLevel::Attention, s))
        } else {
            Err(ProtocolError::InvalidValue("banner level"))
        },
    }
}

pub open spec fn parse_skeleton(id: NodeId, s: Seq<u8>) -> wire::Parsed<NodeModel> {
    match wire::parse_u8(s) {
        Err(e) => Err(e),
        Ok((lines, s)) => Ok((NodeModel::Skeleton { id, lines }, s)),
    }
}

pub open spec fn parse_splash(id: NodeId, s: Seq<u8>) -> wire::Parsed<NodeModel> {
    match parts::parse_mark(s, "splash glyph", "splash glyph flag") {
        Err(e) => Err(e),
        Ok((glyph, s)) => match wire::parse_text(s) {
            Err(e) => Err(e),
            Ok((title, s)) => match wire::parse_text(s) {
                Err(e) => Err(e),
                Ok((summary, s)) => Ok((NodeModel::Splash { id, glyph, title, summary }, s)),
            },
        },
    }
}

pub open spec fn parse_activity(id: NodeId, s: Seq<u8>) -> wire::Parsed<NodeModel> {
    match wire::parse_text(s) {
        Err(e) => Err(e),
        Ok((label, s)) => match parse_progress(s) {
            Err(e) => Err(e),
            Ok((progress, s)) => match parse_cancel(s) {
                Err(e) => Err(e),
                Ok((cancel, s)) => match parse_transfer(s) {
                    Err(e) => Err(e),
                    Ok((transferred, s)) => match parse_failure(s) {
                        Err(e) => Err(e),
                        Ok((failure, s)) => Ok(
                            (
                                NodeModel::Activity {
                                    id,
                                    label,
                                    progress,
                                    cancel,
                                    transferred,
                                    failure,
                                },
                                s,
                            ),
                        ),
                    },
                },
            },
        },
    }
}

pub open spec fn parse_terminal(id: NodeId, s: Seq<u8>) -> wire::Parsed<NodeModel> {
    match wire::parse_u8(s) {
        Err(e) => Err(e),
        Ok((count, s)) => if count > MAX_TERMINAL_ROWS {
            Err(ProtocolError::TooManyNodes)
        } else {
            match lists::parse_rows(s, count as nat) {
                Err(e) => Err(e),
                Ok((rows, s)) => match parse_cursor(s) {
                    Err(e) => Err(e),
                    Ok((cursor, s)) => Ok((NodeModel::Terminal { id, rows, cursor }, s)),
                },
            }
        },
    }
}

/// What reading makes of a leaf with the given tag and identifier.
#[verifier::opaque]
pub open spec fn parse_leaf(tag: u8, id: NodeId, s: Seq<u8>) -> wire::Parsed<NodeModel> {
    if tag == 1 {
        parse_heading(id, s)
    } else if tag == 2 {
        parse_text_node(id, s)
    } else if tag == 3 {
        parse_button(id, s)
    } else if tag == 5 {
        Ok((NodeModel::Divider { id }, s))
    } else if tag == 6 {
        parse_spacer(id, s)
    } else if tag == 7 {
        parse_progress_node(id, s)
    } else if tag == 8 {
        parse_paged_list(id, s)
    } else if tag == 9 {
        parse_tile_grid(id, s)
    } else if tag == 10 {
        parse_choice(id, s)
    } else if tag == 11 {
        parse_banner(id, s)
    } else if tag == 12 {
        parse_skeleton(id, s)
    } else if tag == 13 {
        parse_activity(id, s)
    } else if tag == 14 {
        parse_rows_node(id, s)
    } else if tag == 15 {
        parse_grid(id, s)
    } else if tag == 16 {
        parse_terminal(id, s)
    } else if tag == 17 {
        parse_picture_node(id, s)
    } else if tag == 18 {
        parse_quote(id, s)
    } else if tag == 19 {
        parse_secondary(id, s)
    } else if tag == 20 {
        parse_splash(id, s)
    } else if tag == 21 {
        parse_section(id, s)
    } else if tag == 23 {
        parse_facts(id, s)
    } else if tag == 24 {
        parse_field(id, s)
    } else if tag == 25 {
        parse_chips(id, s)
    } else if tag == 26 {
        parse_tabs_node(id, s)
    } else if tag == 27 {
        Ok((NodeModel::Flex { id }, s))
    } else if tag == 28 {
        parse_rich_text(id, s)
    } else if tag == 29 {
        parse_stepper(id, s)
    } else if tag == 30 {
        parse_table(id, s)
    } else {
        Err(ProtocolError::InvalidValue("node tag"))
    }
}

} // verus!
