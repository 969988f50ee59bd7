//! Counting, writing and reading the nodes that hold no other node.

use vstd::prelude::*;

use crate::error::ProtocolError;
use crate::item;
use crate::item::{add_all_len, add_first_len, read_all, write_all, write_first, Wire};
use crate::leaf;
use crate::limits::{
    MAX_CELLS, MAX_CHIPS, MAX_COLUMNS, MAX_FACTS, MAX_INLINE_FORMULAE, MAX_NODES, MAX_QUOTE_DEPTH,
    MAX_RICH_TEXT_SPANS, MAX_TABS, MAX_TERMINAL_ROWS, MAX_TEXT_LINKS,
};
use crate::lists::{add_rows_len, add_tabs_len, read_rows, read_tabs, write_tabs};
use crate::parts::{
    push_control, push_mark, push_trailing, read_control, read_mark, read_own_action, read_picture,
    read_trailing,
};
use crate::prose;
use crate::prose::{
    all_spans_land, first_formulae_land, keep_formulae, keep_links, push_presentation,
    push_selection, read_presentation, read_selection, read_spans,
};
use crate::ui::{
    ActionId, BannerLevel, BarAction, Caret, Cell, Chip, Emphasis, Fold, Freeform, InlineFormula,
    Node, NodeId, Percent, QuoteRole, RichTextSpan, Row, Space, TableRow, TextLink, TextSelection,
    Tile, TileShape, TransferFailure,
};
use crate::wire;
use crate::wire::{
    add_encoded_len, add_text_len, push_flag, push_text, push_u16, push_u32, push_u64, push_u8,
    Reader,
};

verus! {

/// The smaller of a length and a bound.
fn bounded(length: usize, bound: usize) -> (count: usize)
    ensures
        count == if length <= bound {
            length
        } else {
            bound
        },
{
    if length <= bound {
        length
    } else {
        bound
    }
}

pub proof fn lemma_at_most<T>(list: Seq<T>, bound: int, count: int)
    requires
        0 <= bound,
        count == if list.len() <= bound {
            list.len() as int
        } else {
            bound
        },
    ensures
        list.take(count) == prose::at_most(list, bound),
{
    assert(list.take(count) =~= prose::at_most(list, bound));
}

// ---------------------------------------------------------------------------
// Counting.

fn add_rich_text_len(
    text: &String,
    spans: &Vec<RichTextSpan>,
    links: &Vec<TextLink>,
    selection: &Option<TextSelection>,
    formulae: &Vec<InlineFormula>,
) -> (result: Result<usize, ProtocolError>)
    ensures
        forall|id: NodeId, presentation: crate::ui::ParagraphPresentation|
            wire::counts(
                result,
                #[trigger] leaf::leaf_grown(
                    crate::ui::NodeModel::RichText {
                        id,
                        text: text@,
                        spans: spans@,
                        links: links@,
                        presentation,
                        selection: *selection,
                        formulae: formulae@,
                    },
                ),
            ),
{
    reveal(leaf::leaf_grown);
    if spans.len() > MAX_RICH_TEXT_SPANS {
        return Err(ProtocolError::TooManyNodes);
    }
    let link_count: usize = bounded(links.len(), MAX_TEXT_LINKS);
    let formula_count: usize = bounded(formulae.len(), MAX_INLINE_FORMULAE);
    proof {
        assert(item::models(links@) =~= links@);
        assert(item::models(formulae@) =~= formulae@);
        lemma_at_most(links@, MAX_TEXT_LINKS as int, link_count as int);
        lemma_at_most(formulae@, MAX_INLINE_FORMULAE as int, formula_count as int);
    }
    let length: usize = add_text_len(5, text.as_str())?;
    let length: usize = add_encoded_len(length, 2 + spans.len() * 9 + 9 + 1 + 1)?;
    let mut length: usize = add_first_len(links, link_count, length)?;
    if selection.is_some() {
        length = add_encoded_len(length, 12)?;
    }
    let length: usize = add_encoded_len(length, 1)?;
    add_first_len(formulae, formula_count, length)
}

/// How many bytes a leaf takes, its tag and its identifier with it.
#[verifier::rlimit(60)]
pub fn leaf_len(node: &Node) -> (result: Result<usize, ProtocolError>)
    requires
        !leaf::is_container(node@),
    ensures
        wire::counts(result, leaf::leaf_grown(node@)),
{
    reveal(leaf::leaf_grown);
    match node {
        Node::Heading { id: _, text, level: _ } => add_text_len(6, text.as_str()),
        Node::Secondary { id: _, text } => add_text_len(5, text.as_str()),
        Node::Text { id: _, text, links } => {
            let count: usize = bounded(links.len(), MAX_TEXT_LINKS);
            proof {
                assert(item::models(links@) =~= links@);
                lemma_at_most(links@, MAX_TEXT_LINKS as int, count as int);
            }
            let length: usize = add_text_len(6, text.as_str())?;
            add_first_len(links, count, length)
        },
        Node::RichText { id: _, text, spans, links, presentation: _, selection, formulae } => {
            add_rich_text_len(text, spans, links, selection, formulae)
        },
        Node::Section { id: _, title, value } => {
            let length: usize = add_text_len(6, title.as_str())?;
            match value {
                None => Ok(length),
                Some(value) => add_text_len(length, value.as_str()),
            }
        },
        Node::Quote { id: _, depth: _, role: _, text, fold } => {
            let length: usize = if fold.is_some() {
                15
            } else {
                8
            };
            add_text_len(length, text.as_str())
        },
        Node::Button { id: _, action: _, label, state: _, emphasis: _ } => add_text_len(
            11,
            label.as_str(),
        ),
        Node::Field { id: _, action: _, value, placeholder, clear } => {
            let length: usize = add_text_len(10, value.as_str())?;
            let length: usize = add_text_len(length, placeholder.as_str())?;
            let more: usize = if clear.is_some() {
                4
            } else {
                0
            };
            add_encoded_len(length, more)
        },
        Node::Chips { id: _, chips } => {
            let count: usize = bounded(chips.len(), MAX_CHIPS);
            proof {
                lemma_at_most(item::models(chips@), MAX_CHIPS as int, count as int);
            }
            add_first_len(chips, count, 6)
        },
        Node::Tabs { id: _, tabs, selected: _ } => {
            let count: usize = bounded(tabs.len(), MAX_TABS);
            proof {
                lemma_at_most(item::models(tabs@), MAX_TABS as int, count as int);
            }
            add_tabs_len(tabs, count, 7)
        },
        Node::Facts { id: _, entries } => {
            let count: usize = bounded(entries.len(), MAX_FACTS);
            proof {
                lemma_at_most(item::models(entries@), MAX_FACTS as int, count as int);
            }
            add_first_len(entries, count, 7)
        },
        Node::Divider { id: _ } => Ok(5),
        Node::Spacer { id: _, space: _ } => Ok(6),
        Node::Flex { id: _ } => Ok(5),
        Node::Progress { id: _, value: _ } => Ok(6),
        Node::PagedList { id: _, page: _, items } => {
            if items.len() > MAX_NODES {
                return Err(ProtocolError::TooManyNodes);
            }
            add_all_len(items, 9)
        },
        Node::Grid { id: _, columns: _, square: _, cells } => {
            if cells.len() > 255 {
                return Err(ProtocolError::TooManyNodes);
            }
            add_all_len(cells, 8)
        },
        Node::Rows { id: _, rows } => {
            if rows.len() > 255 {
                return Err(ProtocolError::TooManyNodes);
            }
            add_all_len(rows, 6)
        },
        Node::TileGrid { id: _, tiles, shape: _ } => {
            if tiles.len() > 255 {
                return Err(ProtocolError::TooManyNodes);
            }
            add_all_len(tiles, 7)
        },
        Node::Picture { .. } => Ok(20),
        Node::Table { id: _, rows, weights } => {
            if rows.len() > 255 || weights.len() > 255 {
                return Err(ProtocolError::TooManyNodes);
            }
            let length: usize = add_encoded_len(7, weights.len() * 2)?;
            add_all_len(rows, length)
        },
        Node::Stepper { id: _, label, less, more, less_state: _, more_state: _, fill: _ } => {
            let length: usize = add_text_len(8, label.as_str())?;
            let length: usize = less.add_len(length)?;
            more.add_len(length)
        },
        Node::Choice { id: _, prompt, options, selected: _, freeform } => {
            if options.len() > 255 {
                return Err(ProtocolError::TooManyNodes);
            }
            let length: usize = add_text_len(8, prompt.as_str())?;
            let length: usize = add_all_len(options, length)?;
            match freeform {
                None => Ok(length),
                Some(freeform) => {
                    let length: usize = add_encoded_len(length, 4)?;
                    add_text_len(length, freeform.placeholder.as_str())
                },
            }
        },
        Node::Banner { id: _, level: _, text } => add_text_len(6, text.as_str()),
        Node::Skeleton { .. } => Ok(6),
        Node::Splash { id: _, glyph, title, summary } => {
            let length: usize = if glyph.is_some() {
                7
            } else {
                6
            };
            let length: usize = add_text_len(length, title.as_str())?;
            add_text_len(length, summary.as_str())
        },
        Node::Activity { id: _, label, progress, cancel, transferred, failure } => {
            let length: usize = add_text_len(7, label.as_str())?;
            let more: usize = if progress.is_some() {
                2
            } else {
                1
            };
            let length: usize = add_encoded_len(length, more)?;
            let more: usize = match transferred {
                None => 0,
                Some((_, None)) => 9,
                Some((_, Some(_))) => 17,
            };
            let length: usize = add_encoded_len(length, more)?;
            let mut length: usize = add_encoded_len(length, 1)?;
            if let Some(failure) = failure {
                length = add_encoded_len(length, 1)?;
                length = add_text_len(length, failure.reason.as_str())?;
            }
            match cancel {
                None => Ok(length),
                Some(cancel) => cancel.add_len(length),
            }
        },
        Node::Terminal { id: _, rows, cursor } => {
            if rows.len() > MAX_TERMINAL_ROWS {
                return Err(ProtocolError::TooManyNodes);
            }
            let length: usize = add_rows_len(rows, 6)?;
            let more: usize = if cursor.is_some() {
                5
            } else {
                1
            };
            add_encoded_len(length, more)
        },
        Node::Card { .. } => Ok(5),
        Node::Band { .. } => Ok(5),
    }
}

// ---------------------------------------------------------------------------
// Writing.

fn push_fold(output: &mut Vec<u8>, fold: &Option<Fold>)
    ensures
        final(output)@ == old(output)@ + leaf::fold_bytes(*fold),
{
    broadcast use wire::group_writing;

    match fold {
        None => push_u8(output, 0),
        Some(fold) => {
            push_u8(output, 1);
            push_u32(output, fold.action.0);
            push_flag(output, fold.collapsed);
            push_u16(output, fold.hidden);
        },
    }
}

fn push_clear(output: &mut Vec<u8>, clear: &Option<ActionId>)
    ensures
        final(output)@ == old(output)@ + leaf::clear_bytes(*clear),
{
    broadcast use wire::group_writing;

    match clear {
        None => push_u8(output, 0),
        Some(clear) => {
            push_u8(output, 1);
            push_u32(output, clear.0);
        },
    }
}

fn push_freeform(output: &mut Vec<u8>, freeform: &Option<Freeform>)
    requires
        freeform is Some ==> wire::text_fits(freeform->0.placeholder@),
    ensures
        final(output)@ == old(output)@ + leaf::freeform_bytes(
            match *freeform {
                None => None,
                Some(freeform) => Some(freeform@),
            },
        ),
{
    broadcast use wire::group_writing;

    match freeform {
        None => push_u8(output, 0),
        Some(freeform) => {
            push_u8(output, 1);
            push_u32(output, freeform.action.0);
            push_text(output, freeform.placeholder.as_str());
        },
    }
}

fn push_progress(output: &mut Vec<u8>, progress: &Option<Percent>)
    ensures
        final(output)@ == old(output)@ + leaf::progress_bytes(*progress),
{
    broadcast use wire::group_writing;

    match progress {
        None => push_u8(output, 0),
        Some(progress) => {
            push_u8(output, 1);
            push_u8(output, progress.get());
        },
    }
}

fn push_cancel(output: &mut Vec<u8>, cancel: &Option<BarAction>)
    requires
        cancel is Some ==> BarAction::fits(cancel->0@),
    ensures
        final(output)@ == old(output)@ + leaf::cancel_bytes(
            match *cancel {
                None => None,
                Some(cancel) => Some(cancel@),
            },
        ),
{
    broadcast use wire::group_writing;

    match cancel {
        None => push_u8(output, 0),
        Some(cancel) => {
            push_u8(output, 1);
            cancel.write(output);
        },
    }
}

fn push_transfer(output: &mut Vec<u8>, transferred: &Option<(u64, Option<u64>)>)
    ensures
        final(output)@ == old(output)@ + leaf::transfer_bytes(*transferred),
{
    broadcast use wire::group_writing;

    match transferred {
        None => push_u8(output, 0),
        Some((received, total)) => {
            push_u8(output, 1);
            push_u64(output, *received);
            match total {
                None => push_u8(output, 0),
                Some(total) => {
                    push_u8(output, 1);
                    push_u64(output, *total);
                },
            }
        },
    }
}

fn push_failure(output: &mut Vec<u8>, failure: &Option<TransferFailure>)
    requires
        failure is Some ==> wire::text_fits(failure->0.reason@),
    ensures
        final(output)@ == old(output)@ + leaf::failure_bytes(
            match *failure {
                None => None,
                Some(failure) => Some(failure@),
            },
        ),
{
    broadcast use wire::group_writing;

    match failure {
        None => push_u8(output, 0),
        Some(failure) => {
            push_u8(output, 1);
            push_flag(output, failure.resumable);
            push_text(output, failure.reason.as_str());
        },
    }
}

fn push_cursor(output: &mut Vec<u8>, cursor: &Option<Caret>)
    ensures
        final(output)@ == old(output)@ + leaf::cursor_bytes(*cursor),
{
    broadcast use wire::group_writing;

    match cursor {
        None => push_u8(output, 0),
        Some(caret) => {
            push_u8(output, 1);
            push_u16(output, caret.row);
            push_u16(output, caret.column);
        },
    }
}

/// Whether a write did what its model says: the bytes, or the refusal.
pub open spec fn writes(
    result: Result<(), ProtocolError>,
    before: Seq<u8>,
    after: Seq<u8>,
    refusal: Option<ProtocolError>,
    bytes: Seq<u8>,
) -> bool {
    match refusal {
        None => result is Ok && after == before + bytes,
        Some(refusal) => result == Err::<(), _>(refusal),
    }
}

/// Writes a styled paragraph, refusing a span or a formula that is no run of
/// it.
fn write_rich_text(output: &mut Vec<u8>, node: &Node) -> (result: Result<(), ProtocolError>)
    requires
        node@ is RichText,
        leaf::leaf_fits(node@),
    ensures
        writes(
            result,
            old(output)@,
            final(output)@,
            leaf::leaf_refusal(node@),
            leaf::leaf_body(node@),
        ),
{
    reveal(leaf::leaf_fits);
    reveal(leaf::leaf_body);
    broadcast use wire::group_writing;

    if let Node::RichText { id: _, text, spans, links, presentation, selection, formulae } = node {
        let link_count: usize = bounded(links.len(), MAX_TEXT_LINKS);
        let formula_count: usize = bounded(formulae.len(), MAX_INLINE_FORMULAE);
        proof {
            assert(item::models(links@) =~= links@);
            assert(item::models(formulae@) =~= formulae@);
            assert(item::models(spans@) =~= spans@);
            lemma_at_most(links@, MAX_TEXT_LINKS as int, link_count as int);
            lemma_at_most(formulae@, MAX_INLINE_FORMULAE as int, formula_count as int);
        }
        if !all_spans_land(spans, text.as_str()) {
            return Err(ProtocolError::InvalidValue("rich text span"));
        }
        if !first_formulae_land(formulae, formula_count, text.as_str()) {
            return Err(ProtocolError::InvalidValue("inline formula"));
        }
        push_text(output, text.as_str());
        push_u16(output, spans.len() as u16);
        write_all(output, spans);
        push_presentation(output, *presentation);
        push_u8(output, link_count as u8);
        write_first(output, links, link_count);
        push_selection(output, *selection);
        push_u8(output, formula_count as u8);
        write_first(output, formulae, formula_count);
    }
    Ok(())
}

/// Writes what follows the tag and the identifier of a leaf whose parts are
/// all of one length or a single text.
fn write_short_leaf(output: &mut Vec<u8>, node: &Node)
    requires
        leaf::leaf_fits(node@),
        is_short(node@),
    ensures
        final(output)@ == old(output)@ + leaf::leaf_body(node@),
{
    reveal(leaf::leaf_fits);
    reveal(leaf::leaf_body);
    broadcast use wire::group_writing;

    match node {
        Node::Heading { id: _, text, level } => {
            push_text(output, text.as_str());
            push_u8(output, *level);
        },
        Node::Secondary { id: _, text } => push_text(output, text.as_str()),
        Node::Section { id: _, title, value } => {
            push_text(output, title.as_str());
            push_trailing(output, value);
        },
        Node::Quote { id: _, depth, role, text, fold } => {
            push_u8(
                output,
                if *depth <= MAX_QUOTE_DEPTH {
                    *depth
                } else {
                    MAX_QUOTE_DEPTH
                },
            );
            push_u8(
                output,
                match role {
                    QuoteRole::Body => 0,
                    QuoteRole::Byline => 1,
                },
            );
            push_fold(output, fold);
            push_text(output, text.as_str());
        },
        Node::Button { id: _, action, label, state, emphasis } => {
            push_u32(output, action.0);
            push_control(output, *state);
            push_u8(
                output,
                match emphasis {
                    Emphasis::Normal => 0,
                    Emphasis::Primary => 1,
                },
            );
            push_text(output, label.as_str());
        },
        Node::Field { id: _, action, value, placeholder, clear } => {
            push_u32(output, action.0);
            push_text(output, value.as_str());
            push_text(output, placeholder.as_str());
            push_clear(output, clear);
        },
        Node::Spacer { id: _, space } => push_u8(
            output,
            match space {
                Space::Tight => 0,
                Space::Small => 1,
                Space::Medium => 2,
                Space::Large => 3,
            },
        ),
        Node::Progress { id: _, value } => push_u8(output, value.get()),
        Node::Picture { id: _, handle, source, max_height_tenths_mm, framed } => {
            push_u32(output, handle.0);
            push_u32(output, source.0);
            push_u32(output, source.1);
            push_u16(output, *max_height_tenths_mm);
            push_flag(output, *framed);
        },
        Node::Banner { id: _, level, text } => {
            push_u8(
                output,
                match level {
                    BannerLevel::Info => 0,
                    BannerLevel::Attention => 1,
                },
            );
            push_text(output, text.as_str());
        },
        Node::Skeleton { id: _, lines } => push_u8(output, *lines),
        Node::Splash { id: _, glyph, title, summary } => {
            push_mark(output, *glyph);
            push_text(output, title.as_str());
            push_text(output, summary.as_str());
        },
        _ => {},
    }
}

/// Whether every part of a leaf is of one length or a single text.
pub open spec fn is_short(node: crate::ui::NodeModel) -> bool {
    ||| node is Heading
    ||| node is Secondary
    ||| node is Section
    ||| node is Quote
    ||| node is Button
    ||| node is Field
    ||| node is Spacer
    ||| node is Progress
    ||| node is Picture
    ||| node is Banner
    ||| node is Skeleton
    ||| node is Splash
    ||| node is Divider
    ||| node is Flex
}

/// Writes what follows the tag and the identifier of a leaf with a list in it.
fn write_list_leaf(output: &mut Vec<u8>, node: &Node)
    requires
        leaf::leaf_fits(node@),
        !is_short(node@),
        !(node@ is RichText),
        !leaf::is_container(node@),
    ensures
        final(output)@ == old(output)@ + leaf::leaf_body(node@),
{
    reveal(leaf::leaf_fits);
    reveal(leaf::leaf_body);
    broadcast use wire::group_writing;

    match node {
        Node::Text { id: _, text, links } => {
            let count: usize = bounded(links.len(), MAX_TEXT_LINKS);
            proof {
                assert(item::models(links@) =~= links@);
                lemma_at_most(links@, MAX_TEXT_LINKS as int, count as int);
            }
            push_text(output, text.as_str());
            push_u8(output, count as u8);
            write_first(output, links, count);
        },
        Node::Chips { id: _, chips } => {
            let count: usize = bounded(chips.len(), MAX_CHIPS);
            proof {
                lemma_at_most(item::models(chips@), MAX_CHIPS as int, count as int);
            }
            push_u8(output, count as u8);
            write_first(output, chips, count);
        },
        Node::Tabs { id: _, tabs, selected } => {
            let count: usize = bounded(tabs.len(), MAX_TABS);
            proof {
                lemma_at_most(item::models(tabs@), MAX_TABS as int, count as int);
            }
            push_u8(output, count as u8);
            push_u8(
                output,
                if *selected <= 255 {
                    *selected as u8
                } else {
                    0
                },
            );
            write_tabs(output, tabs, count);
        },
        Node::Facts { id: _, entries } => {
            let count: usize = bounded(entries.len(), MAX_FACTS);
            proof {
                lemma_at_most(item::models(entries@), MAX_FACTS as int, count as int);
            }
            push_u16(output, count as u16);
            write_first(output, entries, count);
        },
        Node::PagedList { id: _, page, items } => {
            push_u16(output, *page);
            push_u16(output, items.len() as u16);
            write_all(output, items);
        },
        Node::Grid { id: _, columns, square, cells } => {
            push_u8(output, *columns);
            push_flag(output, *square);
            push_u8(output, cells.len() as u8);
            write_all(output, cells);
        },
        Node::Rows { id: _, rows } => {
            push_u8(output, rows.len() as u8);
            write_all(output, rows);
        },
        Node::TileGrid { id: _, tiles, shape } => {
            push_u8(
                output,
                match shape {
                    TileShape::Square => 0,
                    TileShape::Portrait => 1,
                },
            );
            push_u8(output, tiles.len() as u8);
            write_all(output, tiles);
        },
        Node::Table { id: _, rows, weights } => {
            assert(item::models(weights@) =~= weights@);
            push_u8(output, weights.len() as u8);
            write_all(output, weights);
            push_u8(output, rows.len() as u8);
            write_all(output, rows);
        },
        Node::Stepper { id: _, label, less, more, less_state, more_state, fill } => {
            push_text(output, label.as_str());
            less.write(output);
            more.write(output);
            push_control(output, *less_state);
            push_control(output, *more_state);
            push_u8(
                output,
                match fill {
                    None => 0,
                    Some(fill) => if *fill < 100 {
                        *fill + 1
                    } else {
                        101
                    },
                },
            );
        },
        Node::Choice { id: _, prompt, options, selected, freeform } => {
            push_text(output, prompt.as_str());
            push_u8(output, options.len() as u8);
            write_all(output, options);
            push_u8(
                output,
                match selected {
                    None => 0,
                    Some(index) => if (*index as usize) < options.len() {
                        *index + 1
                    } else {
                        0
                    },
                },
            );
            push_freeform(output, freeform);
        },
        Node::Activity { id: _, label, progress, cancel, transferred, failure } => {
            push_text(output, label.as_str());
            push_progress(output, progress);
            push_cancel(output, cancel);
            push_transfer(output, transferred);
            push_failure(output, failure);
        },
        Node::Terminal { id: _, rows, cursor } => {
            push_u8(output, rows.len() as u8);
            write_all(output, rows);
            push_cursor(output, cursor);
        },
        _ => {},
    }
}

/// Writes what follows a leaf's tag and its identifier.
pub fn write_leaf(output: &mut Vec<u8>, node: &Node) -> (result: Result<(), ProtocolError>)
    requires
        !leaf::is_container(node@),
        leaf::leaf_fits(node@),
    ensures
        writes(
            result,
            old(output)@,
            final(output)@,
            leaf::leaf_refusal(node@),
            leaf::leaf_body(node@),
        ),
{
    match node {
        Node::RichText { .. } => write_rich_text(output, node),
        Node::Text { .. }
        | Node::Chips { .. }
        | Node::Tabs { .. }
        | Node::Facts { .. }
        | Node::PagedList { .. }
        | Node::Grid { .. }
        | Node::Rows { .. }
        | Node::TileGrid { .. }
        | Node::Table { .. }
        | Node::Stepper { .. }
        | Node::Choice { .. }
        | Node::Activity { .. }
        | Node::Terminal { .. } => {
            write_list_leaf(output, node);
            Ok(())
        },
        _ => {
            write_short_leaf(output, node);
            Ok(())
        },
    }
}

// ---------------------------------------------------------------------------
// Reading.

fn read_fold(reader: &mut Reader<'_>) -> (result: Result<Option<Fold>, ProtocolError>)
    ensures
        wire::yields(result, final(reader)@, leaf::parse_fold(old(reader)@)),
{
    let flag: u8 = reader.u8()?;
    if flag != 1 {
        return Ok(None);
    }
    let action = ActionId(reader.u32()?);
    let collapsed: u8 = reader.u8()?;
    let hidden: u16 = reader.u16()?;
    Ok(Some(Fold { action, collapsed: collapsed == 1, hidden }))
}

fn read_clear(reader: &mut Reader<'_>) -> (result: Result<Option<ActionId>, ProtocolError>)
    ensures
        wire::yields(result, final(reader)@, leaf::parse_clear(old(reader)@)),
{
    let flag: u8 = reader.u8()?;
    if flag == 0 {
        Ok(None)
    } else if flag == 1 {
        let clear = read_own_action(reader)?;
        Ok(Some(clear))
    } else {
        Err(ProtocolError::InvalidValue("field clear flag"))
    }
}

fn read_freeform(reader: &mut Reader<'_>) -> (result: Result<Option<Freeform>, ProtocolError>)
    ensures
        wire::finds(result, final(reader)@, leaf::parse_freeform(old(reader)@)),
{
    let flag: u8 = reader.u8()?;
    if flag == 0 {
        Ok(None)
    } else if flag == 1 {
        let action = read_own_action(reader)?;
        let placeholder = reader.string()?;
        Ok(Some(Freeform { action, placeholder }))
    } else {
        Err(ProtocolError::InvalidValue("freeform flag"))
    }
}

fn read_progress(reader: &mut Reader<'_>) -> (result: Result<Option<Percent>, ProtocolError>)
    ensures
        wire::yields(result, final(reader)@, leaf::parse_progress(old(reader)@)),
{
    let flag: u8 = reader.u8()?;
    if flag == 0 {
        Ok(None)
    } else if flag == 1 {
        let value: u8 = reader.u8()?;
        Ok(Some(Percent::new(value)))
    } else {
        Err(ProtocolError::InvalidValue("activity progress flag"))
    }
}

fn read_cancel(reader: &mut Reader<'_>) -> (result: Result<Option<BarAction>, ProtocolError>)
    ensures
        wire::finds(result, final(reader)@, leaf::parse_cancel(old(reader)@)),
{
    let flag: u8 = reader.u8()?;
    if flag == 0 {
        Ok(None)
    } else if flag == 1 {
        let cancel = BarAction::read(reader)?;
        Ok(Some(cancel))
    } else {
        Err(ProtocolError::InvalidValue("activity cancel flag"))
    }
}

fn read_total(reader: &mut Reader<'_>) -> (result: Result<Option<u64>, ProtocolError>)
    ensures
        wire::yields(result, final(reader)@, leaf::parse_total(old(reader)@)),
{
    let flag: u8 = reader.u8()?;
    if flag == 0 {
        Ok(None)
    } else if flag == 1 {
        let total: u64 = reader.u64()?;
        Ok(Some(total))
    } else {
        Err(ProtocolError::InvalidValue("activity total flag"))
    }
}

fn read_transfer(reader: &mut Reader<'_>) -> (result: Result<Option<(u64, Option<u64>)>, ProtocolError>)
    ensures
        wire::yields(result, final(reader)@, leaf::parse_transfer(old(reader)@)),
{
    let flag: u8 = reader.u8()?;
    if flag == 0 {
        Ok(None)
    } else if flag == 1 {
        let received: u64 = reader.u64()?;
        let total = read_total(reader)?;
        Ok(Some((received, total)))
    } else {
        Err(ProtocolError::InvalidValue("activity transfer flag"))
    }
}

fn read_failure(reader: &mut Reader<'_>) -> (result: Result<Option<TransferFailure>, ProtocolError>)
    ensures
        wire::finds(result, final(reader)@, leaf::parse_failure(old(reader)@)),
{
    let flag: u8 = reader.u8()?;
    if flag == 0 {
        Ok(None)
    } else if flag == 1 {
        let resumable = reader.flag("activity resumable flag")?;
        let reason = reader.string()?;
        Ok(Some(TransferFailure { reason, resumable }))
    } else {
        Err(ProtocolError::InvalidValue("activity failure flag"))
    }
}

fn read_cursor(reader: &mut Reader<'_>) -> (result: Result<Option<Caret>, ProtocolError>)
    ensures
        wire::yields(result, final(reader)@, leaf::parse_cursor(old(reader)@)),
{
    let flag: u8 = reader.u8()?;
    if flag == 0 {
        Ok(None)
    } else if flag == 1 {
        let row: u16 = reader.u16()?;
        let column: u16 = reader.u16()?;
        Ok(Some(Caret { row, column }))
    } else {
        Err(ProtocolError::InvalidValue("terminal cursor flag"))
    }
}

fn read_shape(reader: &mut Reader<'_>) -> (result: Result<TileShape, ProtocolError>)
    ensures
        wire::yields(result, final(reader)@, leaf::parse_shape(old(reader)@)),
{
    let tag: u8 = reader.u8()?;
    match tag {
        0 => Ok(TileShape::Square),
        1 => Ok(TileShape::Portrait),
        _ => Err(ProtocolError::InvalidValue("tile shape")),
    }
}

fn read_level(reader: &mut Reader<'_>) -> (result: Result<BannerLevel, ProtocolError>)
    ensures
        wire::yields(result, final(reader)@, leaf::parse_level(old(reader)@)),
{
    let tag: u8 = reader.u8()?;
    match tag {
        0 => Ok(BannerLevel::Info),
        1 => Ok(BannerLevel::Attention),
        _ => Err(ProtocolError::InvalidValue("banner level")),
    }
}

fn read_fill(reader: &mut Reader<'_>) -> (result: Result<Option<u8>, ProtocolError>)
    ensures
        wire::yields(result, final(reader)@, leaf::parse_fill(old(reader)@)),
{
    let marked: u8 = reader.u8()?;
    if marked == 0 {
        Ok(None)
    } else if marked <= 101 {
        Ok(Some(marked - 1))
    } else {
        Err(ProtocolError::InvalidValue("stepper fill"))
    }
}

fn read_heading(id: NodeId, reader: &mut Reader<'_>) -> (result: Result<Node, ProtocolError>)
    ensures
        wire::reads(result, final(reader)@, leaf::parse_heading(id, old(reader)@)),
{
    let text = reader.string()?;
    let level: u8 = reader.u8()?;
    Ok(Node::Heading { id, text, level })
}

fn read_text(id: NodeId, reader: &mut Reader<'_>) -> (result: Result<Node, ProtocolError>)
    ensures
        wire::reads(result, final(reader)@, leaf::parse_text_node(id, old(reader)@)),
{
    let text = reader.string()?;
    let count: u8 = reader.u8()?;
    let links = read_all::<TextLink>(reader, count as usize)?;
    assert(item::models(links@) =~= links@);
    let kept = keep_links(&links, text.as_str(), links.len());
    proof {
        links@.lemma_filter_len(prose::link_lands(text@));
    }
    assert(item::models(kept@) =~= kept@);
    Ok(Node::Text { id, text, links: kept })
}

fn read_rich_text(id: NodeId, reader: &mut Reader<'_>) -> (result: Result<Node, ProtocolError>)
    ensures
        wire::reads(result, final(reader)@, leaf::parse_rich_text(id, old(reader)@)),
{
    let text = reader.string()?;
    let count: u16 = reader.u16()?;
    if count as usize > MAX_RICH_TEXT_SPANS {
        return Err(ProtocolError::TooManyNodes);
    }
    let spans = read_spans(reader, count as usize, text.as_str())?;
    let presentation = read_presentation(reader)?;
    let link_count: u8 = reader.u8()?;
    let links = read_all::<TextLink>(reader, link_count as usize)?;
    let selection = read_selection(reader)?;
    let formula_count: u8 = reader.u8()?;
    let formulae = read_all::<InlineFormula>(reader, formula_count as usize)?;
    assert(item::models(links@) =~= links@);
    assert(item::models(formulae@) =~= formulae@);
    let kept_links = keep_links(&links, text.as_str(), MAX_TEXT_LINKS);
    let kept_formulae = keep_formulae(&formulae, text.as_str());
    assert(item::models(kept_links@) =~= kept_links@);
    assert(item::models(kept_formulae@) =~= kept_formulae@);
    assert(item::models(spans@) =~= spans@);
    Ok(
        Node::RichText {
            id,
            text,
            spans,
            links: kept_links,
            presentation,
            selection,
            formulae: kept_formulae,
        },
    )
}

fn read_secondary(id: NodeId, reader: &mut Reader<'_>) -> (result: Result<Node, ProtocolError>)
    ensures
        wire::reads(result, final(reader)@, leaf::parse_secondary(id, old(reader)@)),
{
    let text = reader.string()?;
    Ok(Node::Secondary { id, text })
}

fn read_section(id: NodeId, reader: &mut Reader<'_>) -> (result: Result<Node, ProtocolError>)
    ensures
        wire::reads(result, final(reader)@, leaf::parse_section(id, old(reader)@)),
{
    let title = reader.string()?;
    let value = read_trailing(reader)?;
    Ok(Node::Section { id, title, value })
}

fn read_quote(id: NodeId, reader: &mut Reader<'_>) -> (result: Result<Node, ProtocolError>)
    ensures
        wire::reads(result, final(reader)@, leaf::parse_quote(id, old(reader)@)),
{
    let depth: u8 = reader.u8()?;
    let role: u8 = reader.u8()?;
    let fold = read_fold(reader)?;
    let text = reader.string()?;
    Ok(
        Node::Quote {
            id,
            depth: if depth <= MAX_QUOTE_DEPTH {
                depth
            } else {
                MAX_QUOTE_DEPTH
            },
            role: if role == 1 {
                QuoteRole::Byline
            } else {
                QuoteRole::Body
            },
            text,
            fold,
        },
    )
}

fn read_button(id: NodeId, reader: &mut Reader<'_>) -> (result: Result<Node, ProtocolError>)
    ensures
        wire::reads(result, final(reader)@, leaf::parse_button(id, old(reader)@)),
{
    let action = ActionId(reader.u32()?);
    let state = read_control(reader, "control state")?;
    let emphasis: u8 = reader.u8()?;
    let label = reader.string()?;
    Ok(
        Node::Button {
            id,
            action,
            label,
            state,
            emphasis: if emphasis == 1 {
                Emphasis::Primary
            } else {
                Emphasis::Normal
            },
        },
    )
}

fn read_field(id: NodeId, reader: &mut Reader<'_>) -> (result: Result<Node, ProtocolError>)
    ensures
        wire::reads(result, final(reader)@, leaf::parse_field(id, old(reader)@)),
{
    let action = read_own_action(reader)?;
    let value = reader.string()?;
    let placeholder = reader.string()?;
    let clear = read_clear(reader)?;
    Ok(Node::Field { id, action, value, placeholder, clear })
}

fn read_chips(id: NodeId, reader: &mut Reader<'_>) -> (result: Result<Node, ProtocolError>)
    ensures
        wire::reads(result, final(reader)@, leaf::parse_chips(id, old(reader)@)),
{
    let count: u8 = reader.u8()?;
    if count as usize > MAX_CHIPS {
        return Err(ProtocolError::TooManyNodes);
    }
    let chips = read_all::<Chip>(reader, count as usize)?;
    Ok(Node::Chips { id, chips })
}

fn read_tabs_node(id: NodeId, reader: &mut Reader<'_>) -> (result: Result<Node, ProtocolError>)
    ensures
        wire::reads(result, final(reader)@, leaf::parse_tabs_node(id, old(reader)@)),
{
    let count: u8 = reader.u8()?;
    if count as usize > MAX_TABS {
        return Err(ProtocolError::TooManyNodes);
    }
    let selected: u8 = reader.u8()?;
    let tabs = read_tabs(reader, count as usize)?;
    let selected: usize = if (selected as usize) < tabs.len() {
        selected as usize
    } else {
        0
    };
    Ok(Node::Tabs { id, tabs, selected })
}

fn read_facts(id: NodeId, reader: &mut Reader<'_>) -> (result: Result<Node, ProtocolError>)
    ensures
        wire::reads(result, final(reader)@, leaf::parse_facts(id, old(reader)@)),
{
    let count: u16 = reader.u16()?;
    if count as usize > MAX_FACTS {
        return Err(ProtocolError::TooManyNodes);
    }
    let entries = read_all::<(String, String)>(reader, count as usize)?;
    Ok(Node::Facts { id, entries })
}

fn read_spacer(id: NodeId, reader: &mut Reader<'_>) -> (result: Result<Node, ProtocolError>)
    ensures
        wire::reads(result, final(reader)@, leaf::parse_spacer(id, old(reader)@)),
{
    let tag: u8 = reader.u8()?;
    match tag {
        0 => Ok(Node::Spacer { id, space: Space::Tight }),
        1 => Ok(Node::Spacer { id, space: Space::Small }),
        2 => Ok(Node::Spacer { id, space: Space::Medium }),
        3 => Ok(Node::Spacer { id, space: Space::Large }),
        _ => Err(ProtocolError::InvalidValue("spacer scale")),
    }
}

fn read_progress_node(id: NodeId, reader: &mut Reader<'_>) -> (result: Result<Node, ProtocolError>)
    ensures
        wire::reads(result, final(reader)@, leaf::parse_progress_node(id, old(reader)@)),
{
    let value: u8 = reader.u8()?;
    Ok(Node::Progress { id, value: Percent::new(value) })
}

fn read_paged_list(id: NodeId, reader: &mut Reader<'_>) -> (result: Result<Node, ProtocolError>)
    ensures
        wire::reads(result, final(reader)@, leaf::parse_paged_list(id, old(reader)@)),
{
    let page: u16 = reader.u16()?;
    let count: u16 = reader.u16()?;
    if count as usize > MAX_NODES {
        return Err(ProtocolError::TooManyNodes);
    }
    let items = read_all::<String>(reader, count as usize)?;
    Ok(Node::PagedList { id, page, items })
}

fn read_grid(id: NodeId, reader: &mut Reader<'_>) -> (result: Result<Node, ProtocolError>)
    ensures
        wire::reads(result, final(reader)@, leaf::parse_grid(id, old(reader)@)),
{
    let columns: u8 = reader.u8()?;
    if columns == 0 || columns > MAX_COLUMNS {
        return Err(ProtocolError::InvalidValue("grid columns"));
    }
    let square = reader.flag("grid square flag")?;
    let count: u8 = reader.u8()?;
    if count as usize > MAX_CELLS {
        return Err(ProtocolError::TooManyNodes);
    }
    let cells = read_all::<Cell>(reader, count as usize)?;
    Ok(Node::Grid { id, columns, square, cells })
}

fn read_rows_node(id: NodeId, reader: &mut Reader<'_>) -> (result: Result<Node, ProtocolError>)
    ensures
        wire::reads(result, final(reader)@, leaf::parse_rows_node(id, old(reader)@)),
{
    let count: u8 = reader.u8()?;
    let rows = read_all::<Row>(reader, count as usize)?;
    Ok(Node::Rows { id, rows })
}

fn read_tile_grid(id: NodeId, reader: &mut Reader<'_>) -> (result: Result<Node, ProtocolError>)
    ensures
        wire::reads(result, final(reader)@, leaf::parse_tile_grid(id, old(reader)@)),
{
    let shape = read_shape(reader)?;
    let count: u8 = reader.u8()?;
    let tiles = read_all::<Tile>(reader, count as usize)?;
    Ok(Node::TileGrid { id, tiles, shape })
}

fn read_picture_node(id: NodeId, reader: &mut Reader<'_>) -> (result: Result<Node, ProtocolError>)
    ensures
        wire::reads(result, final(reader)@, leaf::parse_picture_node(id, old(reader)@)),
{
    let picture = read_picture(reader)?;
    let height: u16 = reader.u16()?;
    let framed: u8 = reader.u8()?;
    Ok(
        Node::Picture {
            id,
            handle: picture.handle,
            source: picture.source,
            max_height_tenths_mm: height,
            framed: framed != 0,
        },
    )
}

fn read_table(id: NodeId, reader: &mut Reader<'_>) -> (result: Result<Node, ProtocolError>)
    ensures
        wire::reads(result, final(reader)@, leaf::parse_table(id, old(reader)@)),
{
    let weight_count: u8 = reader.u8()?;
    let weights = read_all::<u16>(reader, weight_count as usize)?;
    let row_count: u8 = reader.u8()?;
    let rows = read_all::<TableRow>(reader, row_count as usize)?;
    assert(item::models(weights@) =~= weights@);
    Ok(Node::Table { id, rows, weights })
}

fn read_stepper(id: NodeId, reader: &mut Reader<'_>) -> (result: Result<Node, ProtocolError>)
    ensures
        wire::reads(result, final(reader)@, leaf::parse_stepper(id, old(reader)@)),
{
    let label = reader.string()?;
    let less = BarAction::read(reader)?;
    let more = BarAction::read(reader)?;
    let less_state = read_control(reader, "stepper control state")?;
    let more_state = read_control(reader, "stepper control state")?;
    let fill = read_fill(reader)?;
    Ok(Node::Stepper { id, label, less, more, less_state, more_state, fill })
}

fn read_choice(id: NodeId, reader: &mut Reader<'_>) -> (result: Result<Node, ProtocolError>)
    ensures
        wire::reads(result, final(reader)@, leaf::parse_choice(id, old(reader)@)),
{
    let prompt = reader.string()?;
    let count: u8 = reader.u8()?;
    let options = read_all::<BarAction>(reader, count as usize)?;
    let marked: u8 = reader.u8()?;
    let freeform = read_freeform(reader)?;
    if options.len() == 0 && freeform.is_none() {
        return Err(ProtocolError::InvalidValue("choice with no answers"));
    }
    let selected = if marked >= 1 && ((marked - 1) as usize) < options.len() {
        Some((marked - 1) as u8)
    } else {
        None
    };
    Ok(Node::Choice { id, prompt, options, selected, freeform })
}

fn read_banner(id: NodeId, reader: &mut Reader<'_>) -> (result: Result<Node, ProtocolError>)
    ensures
        wire::reads(result, final(reader)@, leaf::parse_banner(id, old(reader)@)),
{
    let level = read_level(reader)?;
    let text = reader.string()?;
    Ok(Node::Banner { id, level, text })
}

fn read_skeleton(id: NodeId, reader: &mut Reader<'_>) -> (result: Result<Node, ProtocolError>)
    ensures
        wire::reads(result, final(reader)@, leaf::parse_skeleton(id, old(reader)@)),
{
    let lines: u8 = reader.u8()?;
    Ok(Node::Skeleton { id, lines })
}

fn read_splash(id: NodeId, reader: &mut Reader<'_>) -> (result: Result<Node, ProtocolError>)
    ensures
        wire::reads(result, final(reader)@, leaf::parse_splash(id, old(reader)@)),
{
    let glyph = read_mark(reader, "splash glyph", "splash glyph flag")?;
    let title = reader.string()?;
    let summary = reader.string()?;
    Ok(Node::Splash { id, glyph, title, summary })
}

fn read_activity(id: NodeId, reader: &mut Reader<'_>) -> (result: Result<Node, ProtocolError>)
    ensures
        wire::reads(result, final(reader)@, leaf::parse_activity(id, old(reader)@)),
{
    let label = reader.string()?;
    let progress = read_progress(reader)?;
    let cancel = read_cancel(reader)?;
    let transferred = read_transfer(reader)?;
    let failure = read_failure(reader)?;
    Ok(Node::Activity { id, label, progress, cancel, transferred, failure })
}

fn read_terminal(id: NodeId, reader: &mut Reader<'_>) -> (result: Result<Node, ProtocolError>)
    ensures
        wire::reads(result, final(reader)@, leaf::parse_terminal(id, old(reader)@)),
{
    let count: u8 = reader.u8()?;
    if count as usize > MAX_TERMINAL_ROWS {
        return Err(ProtocolError::TooManyNodes);
    }
    let rows = read_rows(reader, count as usize)?;
    let cursor = read_cursor(reader)?;
    Ok(Node::Terminal { id, rows, cursor })
}

/// Reads what follows a leaf's tag and its identifier.
pub fn read_leaf(tag: u8, id: NodeId, reader: &mut Reader<'_>) -> (result: Result<
    Node,
    ProtocolError,
>)
    ensures
        wire::reads(result, final(reader)@, leaf::parse_leaf(tag, id, old(reader)@)),
{
    reveal(leaf::parse_leaf);
    match tag {
        5 => Ok(Node::Divider { id }),
        27 => Ok(Node::Flex { id }),
        1 => read_heading(id, reader),
        2 => read_text(id, reader),
        3 => read_button(id, reader),
        6 => read_spacer(id, reader),
        7 => read_progress_node(id, reader),
        8 => read_paged_list(id, reader),
        9 => read_tile_grid(id, reader),
        10 => read_choice(id, reader),
        11 => read_banner(id, reader),
        12 => read_skeleton(id, reader),
        13 => read_activity(id, reader),
        14 => read_rows_node(id, reader),
        15 => read_grid(id, reader),
        16 => read_terminal(id, reader),
        17 => read_picture_node(id, reader),
        18 => read_quote(id, reader),
        19 => read_secondary(id, reader),
        20 => read_splash(id, reader),
        21 => read_section(id, reader),
        23 => read_facts(id, reader),
        24 => read_field(id, reader),
        25 => read_chips(id, reader),
        26 => read_tabs_node(id, reader),
        28 => read_rich_text(id, reader),
        29 => read_stepper(id, reader),
        30 => read_table(id, reader),
        _ => Err(ProtocolError::InvalidValue("node tag")),
    }
}

} // verus!
