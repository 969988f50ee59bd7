//! Telling two screens apart.

use vstd::prelude::*;

use crate::glyph::Glyph;
use crate::item;
use crate::ui;
use crate::ui::{
    ActionId, BandAlign, BandSlot, BannerLevel, BarAction, BarStyle, BottomAction, Caret, Cell, Chip,
    ControlState, Emphasis, Fold, FontHandle, Freeform, InlineFormula, NavBar, Node, NodeId, Overlay,
    OverlayKind, PageTurns, ParagraphPresentation, Percent, PictureHandle, QuoteRole, ReadingSurface,
    RichTextSpan, Row, RowLead, RowState, Screen, SlotWidth, Space, TableRow, TextLink, TextScale,
    TextSelection, Tile, TilePicture, TileShape, TileState, TopBar, TransferFailure,
};
use crate::wire;

verus! {

/// A value that is nothing but its parts.
pub trait Plain: Sized {
    /// Whether two values are the same.
    fn equals(&self, other: &Self) -> (same: bool)
        ensures
            same == (*self == *other),
    ;
}

/// A value that says something.
pub trait Same: View + Sized {
    /// Whether two values say the same.
    fn same(&self, other: &Self) -> (same: bool)
        ensures
            same == (self@ == other@),
    ;
}

impl Plain for ActionId {
    fn equals(&self, other: &Self) -> (same: bool) {
        *self == *other
    }
}

impl Plain for BandAlign {
    fn equals(&self, other: &Self) -> (same: bool) {
        *self == *other
    }
}

impl Plain for BannerLevel {
    fn equals(&self, other: &Self) -> (same: bool) {
        *self == *other
    }
}

impl Plain for BarStyle {
    fn equals(&self, other: &Self) -> (same: bool) {
        *self == *other
    }
}

impl Plain for Caret {
    fn equals(&self, other: &Self) -> (same: bool) {
        *self == *other
    }
}

impl Plain for ControlState {
    fn equals(&self, other: &Self) -> (same: bool) {
        *self == *other
    }
}

impl Plain for Emphasis {
    fn equals(&self, other: &Self) -> (same: bool) {
        *self == *other
    }
}

impl Plain for Fold {
    fn equals(&self, other: &Self) -> (same: bool) {
        *self == *other
    }
}

impl Plain for FontHandle {
    fn equals(&self, other: &Self) -> (same: bool) {
        *self == *other
    }
}

impl Plain for NodeId {
    fn equals(&self, other: &Self) -> (same: bool) {
        *self == *other
    }
}

impl Plain for OverlayKind {
    fn equals(&self, other: &Self) -> (same: bool) {
        *self == *other
    }
}

impl Plain for ParagraphPresentation {
    fn equals(&self, other: &Self) -> (same: bool) {
        *self == *other
    }
}

impl Plain for Percent {
    fn equals(&self, other: &Self) -> (same: bool) {
        *self == *other
    }
}

impl Plain for PictureHandle {
    fn equals(&self, other: &Self) -> (same: bool) {
        *self == *other
    }
}

impl Plain for QuoteRole {
    fn equals(&self, other: &Self) -> (same: bool) {
        *self == *other
    }
}

impl Plain for RichTextSpan {
    fn equals(&self, other: &Self) -> (same: bool) {
        *self == *other
    }
}

impl Plain for RowState {
    fn equals(&self, other: &Self) -> (same: bool) {
        *self == *other
    }
}

impl Plain for SlotWidth {
    fn equals(&self, other: &Self) -> (same: bool) {
        *self == *other
    }
}

impl Plain for Space {
    fn equals(&self, other: &Self) -> (same: bool) {
        *self == *other
    }
}

impl Plain for TextLink {
    fn equals(&self, other: &Self) -> (same: bool) {
        *self == *other
    }
}

impl Plain for TextScale {
    fn equals(&self, other: &Self) -> (same: bool) {
        *self == *other
    }
}

impl Plain for TextSelection {
    fn equals(&self, other: &Self) -> (same: bool) {
        *self == *other
    }
}

impl Plain for TileShape {
    fn equals(&self, other: &Self) -> (same: bool) {
        *self == *other
    }
}

impl Plain for TileState {
    fn equals(&self, other: &Self) -> (same: bool) {
        *self == *other
    }
}

impl Plain for Glyph {
    fn equals(&self, other: &Self) -> (same: bool) {
        *self == *other
    }
}

impl Plain for u8 {
    fn equals(&self, other: &Self) -> (same: bool) {
        *self == *other
    }
}

impl Plain for u16 {
    fn equals(&self, other: &Self) -> (same: bool) {
        *self == *other
    }
}

impl Plain for usize {
    fn equals(&self, other: &Self) -> (same: bool) {
        *self == *other
    }
}

impl Plain for (u32, u32) {
    fn equals(&self, other: &Self) -> (same: bool) {
        self.0 == other.0
            && self.1 == other.1
    }
}

impl Plain for (u16, u16) {
    fn equals(&self, other: &Self) -> (same: bool) {
        self.0 == other.0
            && self.1 == other.1
    }
}

impl Plain for (u64, Option<u64>) {
    fn equals(&self, other: &Self) -> (same: bool) {
        if self.0 != other.0 {
            return false;
        }
        match (self.1, other.1) {
            (None, None) => true,
            (Some(mine), Some(theirs)) => mine == theirs,
            _ => false,
        }
    }
}

impl Plain for TilePicture {
    fn equals(&self, other: &Self) -> (same: bool) {
        self.handle == other.handle
            && self.source.equals(&other.source)
    }
}

impl Plain for InlineFormula {
    fn equals(&self, other: &Self) -> (same: bool) {
        self.start == other.start
            && self.end == other.end
            && self.handle == other.handle
            && self.source.equals(&other.source)
    }
}

impl Plain for ReadingSurface {
    fn equals(&self, other: &Self) -> (same: bool) {
        self.id == other.id
            && self.picture.equals(&other.picture)
            && self.chrome == other.chrome
    }
}

impl Plain for PageTurns {
    fn equals(&self, other: &Self) -> (same: bool) {
        self.previous == other.previous
            && self.next == other.next
            && same_choice(&self.menu, &other.menu)
            && same_choice(&self.position, &other.position)
    }
}

impl Plain for RowLead {
    fn equals(&self, other: &Self) -> (same: bool) {
        match (self, other) {
            (RowLead::Icon(mine), RowLead::Icon(theirs)) => mine.equals(theirs),
            (RowLead::Number(mine), RowLead::Number(theirs)) => *mine == *theirs,
            (RowLead::Picture(mine, fallback), RowLead::Picture(theirs, other_fallback)) =>
                mine.equals(theirs) && fallback.equals(other_fallback),
            _ => false,
        }
    }
}

/// Whether two values that may be missing are the same.
pub fn same_choice<T: Plain>(mine: &Option<T>, theirs: &Option<T>) -> (same: bool)
    ensures
        same == (*mine == *theirs),
{
    match (mine, theirs) {
        (None, None) => true,
        (Some(mine), Some(theirs)) => mine.equals(theirs),
        _ => false,
    }
}

/// Whether two values that may be missing say the same.
pub fn same_maybe<T: Same>(mine: &Option<T>, theirs: &Option<T>) -> (same: bool)
    ensures
        same == (wire::model_of(*mine) == wire::model_of(*theirs)),
{
    match (mine, theirs) {
        (None, None) => true,
        (Some(mine), Some(theirs)) => mine.same(theirs),
        _ => false,
    }
}

/// Whether two runs of plain values are the same.
pub fn same_run<T: Plain>(mine: &Vec<T>, theirs: &Vec<T>) -> (same: bool)
    ensures
        same == (mine@ == theirs@),
{
    if mine.len() != theirs.len() {
        return false;
    }
    let mut index: usize = 0;
    while index < mine.len()
        invariant
            index <= mine@.len(),
            mine@.len() == theirs@.len(),
            forall|i: int| 0 <= i < index ==> #[trigger] mine@[i] == theirs@[i],
        decreases mine@.len() - index,
    {
        if !mine[index].equals(&theirs[index]) {
            assert(mine@[index as int] != theirs@[index as int]);
            return false;
        }
        index = index + 1;
    }
    assert(mine@ =~= theirs@);
    true
}

/// Whether two runs of values say the same.
pub fn same_all<T: Same>(mine: &Vec<T>, theirs: &Vec<T>) -> (same: bool)
    ensures
        same == (item::models(mine@) == item::models(theirs@)),
{
    if mine.len() != theirs.len() {
        assert(item::models(mine@).len() != item::models(theirs@).len());
        return false;
    }
    let mut index: usize = 0;
    while index < mine.len()
        invariant
            index <= mine@.len(),
            mine@.len() == theirs@.len(),
            forall|i: int| 0 <= i < index ==> (#[trigger] mine@[i])@ == theirs@[i]@,
        decreases mine@.len() - index,
    {
        if !mine[index].same(&theirs[index]) {
            assert(item::models(mine@)[index as int] != item::models(theirs@)[index as int]);
            return false;
        }
        index = index + 1;
    }
    assert(item::models(mine@) =~= item::models(theirs@));
    true
}

impl Same for String {
    fn same(&self, other: &Self) -> (same: bool) {
        *self == *other
    }
}

impl Same for (String, String) {
    fn same(&self, other: &Self) -> (same: bool) {
        self.0.same(&other.0) && self.1.same(&other.1)
    }
}

impl Same for BarAction {
    fn same(&self, other: &Self) -> (same: bool) {
        self.action.equals(&other.action)
            && self.label.same(&other.label)
            && same_choice(&self.glyph, &other.glyph)
    }
}

impl Same for BottomAction {
    fn same(&self, other: &Self) -> (same: bool) {
        self.id.equals(&other.id)
            && self.action.same(&other.action)
    }
}

impl Same for TopBar {
    fn same(&self, other: &Self) -> (same: bool) {
        self.id.equals(&other.id)
            && self.title.same(&other.title)
            && same_all(&self.actions, &other.actions)
    }
}

impl Same for NavBar {
    fn same(&self, other: &Self) -> (same: bool) {
        self.id.equals(&other.id)
            && same_all(&self.destinations, &other.destinations)
            && same_choice(&self.selected, &other.selected)
            && self.style.equals(&other.style)
    }
}

impl Same for Chip {
    fn same(&self, other: &Self) -> (same: bool) {
        self.action.equals(&other.action)
            && self.label.same(&other.label)
            && self.selected == other.selected
    }
}

impl Same for Cell {
    fn same(&self, other: &Self) -> (same: bool) {
        self.action.equals(&other.action)
            && self.label.same(&other.label)
            && same_choice(&self.glyph, &other.glyph)
    }
}

impl Same for Tile {
    fn same(&self, other: &Self) -> (same: bool) {
        self.action.equals(&other.action)
            && self.label.same(&other.label)
            && self.glyph.equals(&other.glyph)
            && same_choice(&self.picture, &other.picture)
            && self.state.equals(&other.state)
            && self.badge.same(&other.badge)
            && self.subtitle.same(&other.subtitle)
    }
}

impl Same for Row {
    fn same(&self, other: &Self) -> (same: bool) {
        self.action.equals(&other.action)
            && self.title.same(&other.title)
            && self.summary.same(&other.summary)
            && self.lead.equals(&other.lead)
            && self.state.equals(&other.state)
            && same_maybe(&self.trailing, &other.trailing)
            && same_choice(&self.menu, &other.menu)
    }
}

impl Same for Freeform {
    fn same(&self, other: &Self) -> (same: bool) {
        self.action.equals(&other.action)
            && self.placeholder.same(&other.placeholder)
    }
}

impl Same for TransferFailure {
    fn same(&self, other: &Self) -> (same: bool) {
        self.reason.same(&other.reason)
            && self.resumable == other.resumable
    }
}

impl Same for TableRow {
    fn same(&self, other: &Self) -> (same: bool) {
        self.header == other.header
            && same_all(&self.cells, &other.cells)
    }
}

/// Whether two nodes say the same.
pub fn same_node(mine: &Node, theirs: &Node) -> (same: bool)
    ensures
        same == (mine@ == theirs@),
    decreases mine,
{
    match (mine, theirs) {
        (
            Node::Heading { id, text, level },
            Node::Heading { id: other_id, text: other_text, level: other_level },
        ) => id.equals(other_id)
            && text.same(other_text)
            && *level == *other_level,
        (
            Node::Text { id, text, links },
            Node::Text { id: other_id, text: other_text, links: other_links },
        ) => id.equals(other_id)
            && text.same(other_text)
            && same_run(links, other_links),
        (
            Node::RichText { id, text, spans, links, presentation, selection, formulae },
            Node::RichText {
                id: other_id,
                text: other_text,
                spans: other_spans,
                links: other_links,
                presentation: other_presentation,
                selection: other_selection,
                formulae: other_formulae,
            },
        ) => id.equals(other_id)
            && text.same(other_text)
            && same_run(spans, other_spans)
            && same_run(links, other_links)
            && presentation.equals(other_presentation)
            && same_choice(selection, other_selection)
            && same_run(formulae, other_formulae),
        (
            Node::Secondary { id, text },
            Node::Secondary { id: other_id, text: other_text },
        ) => id.equals(other_id)
            && text.same(other_text),
        (
            Node::Section { id, title, value },
            Node::Section { id: other_id, title: other_title, value: other_value },
        ) => id.equals(other_id)
            && title.same(other_title)
            && same_maybe(value, other_value),
        (
            Node::Quote { id, depth, role, text, fold },
            Node::Quote {
                id: other_id,
                depth: other_depth,
                role: other_role,
                text: other_text,
                fold: other_fold,
            },
        ) => id.equals(other_id)
            && *depth == *other_depth
            && role.equals(other_role)
            && text.same(other_text)
            && same_choice(fold, other_fold),
        (
            Node::Button { id, action, label, state, emphasis },
            Node::Button {
                id: other_id,
                action: other_action,
                label: other_label,
                state: other_state,
                emphasis: other_emphasis,
            },
        ) => id.equals(other_id)
            && action.equals(other_action)
            && label.same(other_label)
            && state.equals(other_state)
            && emphasis.equals(other_emphasis),
        (
            Node::Card { id, children },
            Node::Card { id: other_id, children: other_children },
        ) => id.equals(other_id)
            && same_nodes(children, other_children),
        (
            Node::Field { id, action, value, placeholder, clear },
            Node::Field {
                id: other_id,
                action: other_action,
                value: other_value,
                placeholder: other_placeholder,
                clear: other_clear,
            },
        ) => id.equals(other_id)
            && action.equals(other_action)
            && value.same(other_value)
            && placeholder.same(other_placeholder)
            && same_choice(clear, other_clear),
        (
            Node::Chips { id, chips },
            Node::Chips { id: other_id, chips: other_chips },
        ) => id.equals(other_id)
            && same_all(chips, other_chips),
        (
            Node::Tabs { id, tabs, selected },
            Node::Tabs { id: other_id, tabs: other_tabs, selected: other_selected },
        ) => id.equals(other_id)
            && same_all(tabs, other_tabs)
            && *selected == *other_selected,
        (
            Node::Facts { id, entries },
            Node::Facts { id: other_id, entries: other_entries },
        ) => id.equals(other_id)
            && same_all(entries, other_entries),
        (
            Node::Band { id, align, slots },
            Node::Band { id: other_id, align: other_align, slots: other_slots },
        ) => id.equals(other_id)
            && align.equals(other_align)
            && same_slots(slots, other_slots),
        (Node::Divider { id }, Node::Divider { id: other_id }) => id.equals(other_id),
        (Node::Flex { id }, Node::Flex { id: other_id }) => id.equals(other_id),
        (
            Node::Spacer { id, space },
            Node::Spacer { id: other_id, space: other_space },
        ) => id.equals(other_id)
            && space.equals(other_space),
        (
            Node::Progress { id, value },
            Node::Progress { id: other_id, value: other_value },
        ) => id.equals(other_id)
            && value.equals(other_value),
        (
            Node::PagedList { id, page, items },
            Node::PagedList { id: other_id, page: other_page, items: other_items },
        ) => id.equals(other_id)
            && *page == *other_page
            && same_all(items, other_items),
        (
            Node::Grid { id, columns, square, cells },
            Node::Grid {
                id: other_id,
                columns: other_columns,
                square: other_square,
                cells: other_cells,
            },
        ) => id.equals(other_id)
            && *columns == *other_columns
            && *square == *other_square
            && same_all(cells, other_cells),
        (
            Node::Rows { id, rows },
            Node::Rows { id: other_id, rows: other_rows },
        ) => id.equals(other_id)
            && same_all(rows, other_rows),
        (
            Node::TileGrid { id, tiles, shape },
            Node::TileGrid { id: other_id, tiles: other_tiles, shape: other_shape },
        ) => id.equals(other_id)
            && same_all(tiles, other_tiles)
            && shape.equals(other_shape),
        (
            Node::Picture { id, handle, source, max_height_tenths_mm, framed },
            Node::Picture {
                id: other_id,
                handle: other_handle,
                source: other_source,
                max_height_tenths_mm: other_max_height_tenths_mm,
                framed: other_framed,
            },
        ) => id.equals(other_id)
            && handle.equals(other_handle)
            && source.equals(other_source)
            && *max_height_tenths_mm == *other_max_height_tenths_mm
            && *framed == *other_framed,
        (
            Node::Table { id, rows, weights },
            Node::Table { id: other_id, rows: other_rows, weights: other_weights },
        ) => id.equals(other_id)
            && same_all(rows, other_rows)
            && same_run(weights, other_weights),
        (
            Node::Stepper { id, label, less, more, less_state, more_state, fill },
            Node::Stepper {
                id: other_id,
                label: other_label,
                less: other_less,
                more: other_more,
                less_state: other_less_state,
                more_state: other_more_state,
                fill: other_fill,
            },
        ) => id.equals(other_id)
            && label.same(other_label)
            && less.same(other_less)
            && more.same(other_more)
            && less_state.equals(other_less_state)
            && more_state.equals(other_more_state)
            && same_choice(fill, other_fill),
        (
            Node::Choice { id, prompt, options, selected, freeform },
            Node::Choice {
                id: other_id,
                prompt: other_prompt,
                options: other_options,
                selected: other_selected,
                freeform: other_freeform,
            },
        ) => id.equals(other_id)
            && prompt.same(other_prompt)
            && same_all(options, other_options)
            && same_choice(selected, other_selected)
            && same_maybe(freeform, other_freeform),
        (
            Node::Banner { id, level, text },
            Node::Banner { id: other_id, level: other_level, text: other_text },
        ) => id.equals(other_id)
            && level.equals(other_level)
            && text.same(other_text),
        (
            Node::Skeleton { id, lines },
            Node::Skeleton { id: other_id, lines: other_lines },
        ) => id.equals(other_id)
            && *lines == *other_lines,
        (
            Node::Splash { id, glyph, title, summary },
            Node::Splash {
                id: other_id,
                glyph: other_glyph,
                title: other_title,
                summary: other_summary,
            },
        ) => id.equals(other_id)
            && same_choice(glyph, other_glyph)
            && title.same(other_title)
            && summary.same(other_summary),
        (
            Node::Activity { id, label, progress, cancel, transferred, failure },
            Node::Activity {
                id: other_id,
                label: other_label,
                progress: other_progress,
                cancel: other_cancel,
                transferred: other_transferred,
                failure: other_failure,
            },
        ) => id.equals(other_id)
            && label.same(other_label)
            && same_choice(progress, other_progress)
            && same_maybe(cancel, other_cancel)
            && same_choice(transferred, other_transferred)
            && same_maybe(failure, other_failure),
        (
            Node::Terminal { id, rows, cursor },
            Node::Terminal { id: other_id, rows: other_rows, cursor: other_cursor },
        ) => id.equals(other_id)
            && same_all(rows, other_rows)
            && same_choice(cursor, other_cursor),
        _ => false,
    }
}

/// Whether two runs of nodes say the same.
pub fn same_nodes(mine: &Vec<Node>, theirs: &Vec<Node>) -> (same: bool)
    ensures
        same == (ui::node_models(mine@) == ui::node_models(theirs@)),
    decreases mine,
{
    if mine.len() != theirs.len() {
        assert(ui::node_models(mine@).len() != ui::node_models(theirs@).len());
        return false;
    }
    let mut index: usize = 0;
    while index < mine.len()
        invariant
            index <= mine@.len(),
            mine@.len() == theirs@.len(),
            forall|i: int| 0 <= i < index ==> (#[trigger] mine@[i])@ == theirs@[i]@,
        decreases mine@.len() - index,
    {
        if !same_node(&mine[index], &theirs[index]) {
            assert(ui::node_models(mine@)[index as int] != ui::node_models(theirs@)[index as int]);
            return false;
        }
        index = index + 1;
    }
    assert(ui::node_models(mine@) =~= ui::node_models(theirs@));
    true
}

/// Whether two runs of columns say the same.
pub fn same_slots(mine: &Vec<BandSlot>, theirs: &Vec<BandSlot>) -> (same: bool)
    ensures
        same == (ui::slot_models(mine@) == ui::slot_models(theirs@)),
    decreases mine,
{
    if mine.len() != theirs.len() {
        assert(ui::slot_models(mine@).len() != ui::slot_models(theirs@).len());
        return false;
    }
    let mut index: usize = 0;
    while index < mine.len()
        invariant
            index <= mine@.len(),
            mine@.len() == theirs@.len(),
            forall|i: int| 0 <= i < index ==> (#[trigger] mine@[i])@ == theirs@[i]@,
        decreases mine@.len() - index,
    {
        let slot = &mine[index];
        let other = &theirs[index];
        let same = slot.width.equals(&other.width) && same_nodes(&slot.nodes, &other.nodes);
        assert(same == (slot@ == other@));
        if !same {
            assert(ui::slot_models(mine@)[index as int] != ui::slot_models(theirs@)[index as int]);
            return false;
        }
        index = index + 1;
    }
    assert(ui::slot_models(mine@) =~= ui::slot_models(theirs@));
    true
}

/// Whether two overlays that may be missing say the same.
fn same_overlay(mine: &Option<Box<Overlay>>, theirs: &Option<Box<Overlay>>) -> (same: bool)
    ensures
        same == (overlay_model(*mine) == overlay_model(*theirs)),
{
    match (mine, theirs) {
        (None, None) => true,
        (Some(mine), Some(theirs)) => {
            mine.id.equals(&theirs.id) && mine.kind.equals(&theirs.kind) && mine.title.same(
                &theirs.title,
            ) && same_nodes(&mine.nodes, &theirs.nodes)
        },
        _ => false,
    }
}

/// What an overlay that may be missing says.
pub open spec fn overlay_model(overlay: Option<Box<Overlay>>) -> Option<ui::OverlayModel> {
    match overlay {
        None => None,
        Some(inner) => Some((*inner)@),
    }
}

impl Same for Screen {
    fn same(&self, other: &Self) -> (same: bool) {
        self.id == other.id
            && same_maybe(&self.top_bar, &other.top_bar)
            && same_choice(&self.reading_surface, &other.reading_surface)
            && same_nodes(&self.nodes, &other.nodes)
            && same_maybe(&self.nav_bar, &other.nav_bar)
            && same_maybe(&self.bottom_action, &other.bottom_action)
            && same_choice(&self.page_turns, &other.page_turns)
            && same_choice(&self.hold, &other.hold)
            && self.owns_back == other.owns_back
            && same_choice(&self.text_scale, &other.text_scale)
            && same_overlay(&self.overlay, &other.overlay)
            && self.reading == other.reading
            && same_choice(&self.reading_font, &other.reading_font)
    }
}

} // verus!
