//! Building screens by hand.

use vstd::prelude::*;

use crate::glyph::Glyph;
use crate::item;
use crate::limits::RESERVED_ACTION;
use crate::ui;
use crate::ui::{
    ActionId, BandSlot, BandSlotModel, BarAction, BarActionModel, BarStyle, BottomAction,
    BottomActionModel, Caret, Cell, CellModel, Chip, ChipModel, FontHandle, Freeform,
    FreeformModel, NavBar, NavBarModel, Node, NodeId, NodeModel, Overlay, OverlayKind,
    OverlayModel, PageTurns, ParagraphAlignment, ParagraphPresentation, Percent, PictureHandle,
    ReadingChrome, ReadingSurface, Row, RowLead, RowModel, RowState, Screen, ScreenModel,
    SlotWidth, TextPresentation, TextScale, Tile, TileModel, TilePicture, TileState, TopBar,
    TopBarModel,
};

verus! {

impl ActionId {
    /// Going back, which belongs to the runtime.
    #[must_use]
    pub fn back() -> (action: ActionId)
        ensures
            action.0 == RESERVED_ACTION,
    {
        ActionId(RESERVED_ACTION)
    }

    /// Whether the runtime keeps this identifier for itself.
    pub open spec fn is_reserved_spec(self) -> bool {
        self.0 == RESERVED_ACTION
    }

    #[must_use]
    pub fn is_reserved(self) -> (reserved: bool)
        ensures
            reserved == self.is_reserved_spec(),
    {
        self.0 == RESERVED_ACTION
    }
}

impl Percent {
    /// Whether it is a share of a hundred.
    pub open spec fn is_share(self) -> bool {
        self.value <= 100
    }

    /// The share nearest to a number.
    pub open spec fn nearest(value: u8) -> Percent {
        Percent {
            value: if value <= 100 {
                value
            } else {
                100
            },
        }
    }

    /// Clamps rather than refuses: a percentage over a hundred is a caller's
    /// mistake.
    #[must_use]
    pub fn new(value: u8) -> (percent: Percent)
        ensures
            percent == Percent::nearest(value),
            percent.is_share(),
    {
        Percent {
            value: if value <= 100 {
                value
            } else {
                100
            },
        }
    }

    #[must_use]
    pub fn get(self) -> (value: u8)
        ensures
            value == self.value,
    {
        self.value
    }
}

// ---------------------------------------------------------------------------
// Pictures and text.

impl TilePicture {
    pub fn new(handle: PictureHandle, width: u32, height: u32) -> (picture: TilePicture)
        ensures
            picture.handle == handle,
            picture.source == (width, height),
    {
        TilePicture { handle, source: (width, height) }
    }
}

impl Caret {
    pub fn new(row: u16, column: u16) -> (caret: Caret)
        ensures
            caret == (Caret { row, column }),
    {
        Caret { row, column }
    }
}

impl Default for TextPresentation {
    /// Nothing special about the text.
    fn default() -> (plain: TextPresentation)
        ensures
            plain == (TextPresentation {
                strong: false,
                emphasis: false,
                underline: false,
                superscript: false,
                subscript: false,
                highlighted: false,
            }),
    {
        TextPresentation {
            strong: false,
            emphasis: false,
            underline: false,
            superscript: false,
            subscript: false,
            highlighted: false,
        }
    }
}

impl Default for ParagraphPresentation {
    /// Set from the start of the line, a line to a line.
    fn default() -> (plain: ParagraphPresentation)
        ensures
            plain == (ParagraphPresentation {
                alignment: ParagraphAlignment::Start,
                line_height_percent: 100,
                margin_before_em: 0,
                margin_after_em: 0,
                first_line_indent_em: 0,
            }),
    {
        ParagraphPresentation {
            alignment: ParagraphAlignment::Start,
            line_height_percent: 100,
            margin_before_em: 0,
            margin_after_em: 0,
            first_line_indent_em: 0,
        }
    }
}

// ---------------------------------------------------------------------------
// Controls.

impl BarAction {
    pub fn new(action: ActionId, label: &str) -> (control: BarAction)
        ensures
            control@ == (BarActionModel { action, label: label@, glyph: None }),
    {
        BarAction { action, label: label.to_owned(), glyph: None }
    }

    pub fn with_glyph(self, glyph: Glyph) -> (control: BarAction)
        ensures
            control@ == (BarActionModel { glyph: Some(glyph), ..self@ }),
    {
        BarAction { glyph: Some(glyph), ..self }
    }
}

impl BottomAction {
    pub fn new(id: NodeId, action: BarAction) -> (bottom: BottomAction)
        ensures
            bottom@ == (BottomActionModel { id, action: action@ }),
    {
        BottomAction { id, action }
    }
}

impl Chip {
    pub fn new(action: ActionId, label: &str) -> (chip: Chip)
        ensures
            chip@ == (ChipModel { action, label: label@, selected: false }),
    {
        Chip { action, label: label.to_owned(), selected: false }
    }

    pub fn selected(self, selected: bool) -> (chip: Chip)
        ensures
            chip@ == (ChipModel { selected, ..self@ }),
    {
        Chip { selected, ..self }
    }
}

impl Cell {
    pub fn new(action: ActionId, label: &str) -> (cell: Cell)
        ensures
            cell@ == (CellModel { action, label: label@, glyph: None }),
    {
        Cell { action, label: label.to_owned(), glyph: None }
    }

    pub fn with_glyph(self, glyph: Glyph) -> (cell: Cell)
        ensures
            cell@ == (CellModel { glyph: Some(glyph), ..self@ }),
    {
        Cell { glyph: Some(glyph), ..self }
    }
}

impl Freeform {
    pub fn new(action: ActionId, placeholder: &str) -> (freeform: Freeform)
        ensures
            freeform@ == (FreeformModel { action, placeholder: placeholder@ }),
    {
        Freeform { action, placeholder: placeholder.to_owned() }
    }
}

impl Row {
    pub fn new(action: ActionId, title: &str, summary: &str, lead: RowLead) -> (row: Row)
        ensures
            row@ == (RowModel {
                action,
                title: title@,
                summary: summary@,
                lead,
                state: RowState::Open,
                trailing: None,
                menu: None,
            }),
    {
        Row {
            action,
            title: title.to_owned(),
            summary: summary.to_owned(),
            lead,
            state: RowState::Open,
            trailing: None,
            menu: None,
        }
    }

    pub fn with_state(self, state: RowState) -> (row: Row)
        ensures
            row@ == (RowModel { state, ..self@ }),
    {
        Row { state, ..self }
    }

    /// The same row, struck off or not.
    pub fn done(self, done: bool) -> (row: Row)
        ensures
            row@ == (RowModel {
                state: if done {
                    RowState::Done
                } else {
                    RowState::Open
                },
                ..self@
            }),
    {
        let state = if done {
            RowState::Done
        } else {
            RowState::Open
        };
        self.with_state(state)
    }

    pub fn with_trailing(self, trailing: &str) -> (row: Row)
        ensures
            row@ == (RowModel { trailing: Some(trailing@), ..self@ }),
    {
        Row { trailing: Some(trailing.to_owned()), ..self }
    }

    pub fn with_menu(self, menu: ActionId) -> (row: Row)
        ensures
            row@ == (RowModel { menu: Some(menu), ..self@ }),
    {
        Row { menu: Some(menu), ..self }
    }
}

impl Tile {
    pub fn new(action: ActionId, label: &str, glyph: Glyph) -> (tile: Tile)
        ensures
            tile@ == (TileModel {
                action,
                label: label@,
                glyph,
                picture: None,
                state: TileState::Normal,
                badge: Seq::empty(),
                subtitle: Seq::empty(),
            }),
    {
        let tile = Tile {
            action,
            label: label.to_owned(),
            glyph,
            picture: None,
            state: TileState::Normal,
            badge: String::new(),
            subtitle: String::new(),
        };
        assert(tile@.badge =~= Seq::empty());
        assert(tile@.subtitle =~= Seq::empty());
        tile
    }

    pub fn with_picture(self, picture: TilePicture) -> (tile: Tile)
        ensures
            tile@ == (TileModel { picture: Some(picture), ..self@ }),
    {
        Tile { picture: Some(picture), ..self }
    }

    pub fn with_state(self, state: TileState) -> (tile: Tile)
        ensures
            tile@ == (TileModel { state, ..self@ }),
    {
        Tile { state, ..self }
    }

    pub fn with_badge(self, badge: &str) -> (tile: Tile)
        ensures
            tile@ == (TileModel { badge: badge@, ..self@ }),
    {
        Tile { badge: badge.to_owned(), ..self }
    }

    pub fn with_subtitle(self, subtitle: &str) -> (tile: Tile)
        ensures
            tile@ == (TileModel { subtitle: subtitle@, ..self@ }),
    {
        Tile { subtitle: subtitle.to_owned(), ..self }
    }
}

impl BandSlot {
    pub fn new(width: SlotWidth, nodes: Vec<Node>) -> (slot: BandSlot)
        ensures
            slot@ == (BandSlotModel { width, nodes: ui::node_models(nodes@) }),
    {
        BandSlot { width, nodes }
    }

    /// A column of a set width, in tenths of a millimetre.
    pub fn fixed(tenths_mm: u16, nodes: Vec<Node>) -> (slot: BandSlot)
        ensures
            slot@ == (BandSlotModel {
                width: SlotWidth::Fixed(tenths_mm),
                nodes: ui::node_models(nodes@),
            }),
    {
        BandSlot { width: SlotWidth::Fixed(tenths_mm), nodes }
    }

    /// A column that takes the room that is left.
    pub fn fill(nodes: Vec<Node>) -> (slot: BandSlot)
        ensures
            slot@ == (BandSlotModel { width: SlotWidth::Fill, nodes: ui::node_models(nodes@) }),
    {
        BandSlot { width: SlotWidth::Fill, nodes }
    }

    /// A column as wide as what is in it.
    pub fn natural(nodes: Vec<Node>) -> (slot: BandSlot)
        ensures
            slot@ == (BandSlotModel { width: SlotWidth::Natural, nodes: ui::node_models(nodes@) }),
    {
        BandSlot { width: SlotWidth::Natural, nodes }
    }
}

// ---------------------------------------------------------------------------
// Bars and what covers a screen.

impl TopBar {
    pub fn new(id: NodeId, title: &str) -> (bar: TopBar)
        ensures
            bar@ == (TopBarModel { id, title: title@, actions: Seq::empty() }),
    {
        let bar = TopBar { id, title: title.to_owned(), actions: Vec::new() };
        assert(bar@.actions =~= Seq::empty());
        bar
    }

    /// The same bar with one more control.
    pub fn with_action(self, control: BarAction) -> (bar: TopBar)
        ensures
            bar@ == (TopBarModel { actions: self@.actions.push(control@), ..self@ }),
    {
        let mut actions = self.actions;
        actions.push(control);
        let bar = TopBar { id: self.id, title: self.title, actions };
        assert(bar@.actions =~= self@.actions.push(control@));
        bar
    }

    /// The same bar with one more word to use.
    pub fn action(self, action: ActionId, label: &str) -> (bar: TopBar)
        ensures
            bar@ == (TopBarModel {
                actions: self@.actions.push(
                    BarActionModel { action, label: label@, glyph: None },
                ),
                ..self@
            }),
    {
        self.with_action(BarAction::new(action, label))
    }
}

impl NavBar {
    /// A bar of places, one of which may be where the reader is.
    pub fn new(id: NodeId, destinations: Vec<BarAction>, selected: Option<usize>) -> (bar: NavBar)
        ensures
            bar@ == (NavBarModel {
                id,
                destinations: item::models(destinations@),
                selected,
                style: BarStyle::Navigation,
            }),
    {
        NavBar { id, destinations, selected, style: BarStyle::Navigation }
    }

    /// A bar of verbs, none of which is where the reader is.
    pub fn actions(id: NodeId, actions: Vec<BarAction>) -> (bar: NavBar)
        ensures
            bar@ == (NavBarModel {
                id,
                destinations: item::models(actions@),
                selected: None,
                style: BarStyle::Actions,
            }),
    {
        NavBar { id, destinations: actions, selected: None, style: BarStyle::Actions }
    }
}

impl Overlay {
    pub fn modal(id: NodeId, title: &str, nodes: Vec<Node>) -> (overlay: Overlay)
        ensures
            overlay@ == (OverlayModel {
                id,
                kind: OverlayKind::Modal,
                title: title@,
                nodes: ui::node_models(nodes@),
            }),
    {
        Overlay { id, kind: OverlayKind::Modal, title: title.to_owned(), nodes }
    }

    pub fn popover(id: NodeId, anchor: ActionId, title: &str, nodes: Vec<Node>) -> (overlay:
        Overlay)
        ensures
            overlay@ == (OverlayModel {
                id,
                kind: OverlayKind::Popover { anchor },
                title: title@,
                nodes: ui::node_models(nodes@),
            }),
    {
        Overlay { id, kind: OverlayKind::Popover { anchor }, title: title.to_owned(), nodes }
    }
}

impl Overlay {
    /// Whether a tap anywhere else closes it: a menu that has to be told to
    /// close is a menu that gets left open.
    #[must_use]
    pub fn dismissed_by_a_miss(&self) -> (dismissed: bool)
        ensures
            dismissed == (self@.kind is Popover),
    {
        match self.kind {
            OverlayKind::Popover { .. } => true,
            OverlayKind::Modal => false,
        }
    }
}

impl PageTurns {
    pub fn new(previous: ActionId, next: ActionId) -> (turns: PageTurns)
        ensures
            turns == (PageTurns { previous, next, menu: None, position: None }),
    {
        PageTurns { previous, next, menu: None, position: None }
    }

    pub fn with_menu(self, menu: ActionId) -> (turns: PageTurns)
        ensures
            turns == (PageTurns { menu: Some(menu), ..self }),
    {
        PageTurns { menu: Some(menu), ..self }
    }

    pub fn with_position(self, page: u16, of: u16) -> (turns: PageTurns)
        ensures
            turns == (PageTurns { position: Some((page, of)), ..self }),
    {
        PageTurns { position: Some((page, of)), ..self }
    }
}

impl ReadingSurface {
    pub fn new(id: NodeId, picture: TilePicture, chrome: ReadingChrome) -> (surface: ReadingSurface)
        ensures
            surface == (ReadingSurface { id, picture, chrome }),
    {
        ReadingSurface { id, picture, chrome }
    }
}

// ---------------------------------------------------------------------------
// Screens.

/// A screen with nothing around its nodes.
pub open spec fn bare_screen(id: u32, nodes: Seq<NodeModel>) -> ScreenModel {
    ScreenModel {
        id,
        top_bar: None,
        reading_surface: None,
        nodes,
        nav_bar: None,
        bottom_action: None,
        page_turns: None,
        hold: None,
        owns_back: false,
        text_scale: None,
        overlay: None,
        reading: false,
        reading_font: None,
    }
}

impl Screen {
    pub fn new(id: u32, nodes: Vec<Node>) -> (screen: Screen)
        ensures
            screen@ == bare_screen(id, ui::node_models(nodes@)),
    {
        Screen {
            id,
            top_bar: None,
            reading_surface: None,
            nodes,
            nav_bar: None,
            bottom_action: None,
            page_turns: None,
            hold: None,
            owns_back: false,
            text_scale: None,
            overlay: None,
            reading: false,
            reading_font: None,
        }
    }

    pub fn with_top_bar(self, bar: TopBar) -> (screen: Screen)
        ensures
            screen@ == (ScreenModel { top_bar: Some(bar@), ..self@ }),
    {
        Screen { top_bar: Some(bar), ..self }
    }

    pub fn with_nav_bar(self, bar: NavBar) -> (screen: Screen)
        ensures
            screen@ == (ScreenModel { nav_bar: Some(bar@), ..self@ }),
    {
        Screen { nav_bar: Some(bar), ..self }
    }

    pub fn with_bottom_action(self, bottom: BottomAction) -> (screen: Screen)
        ensures
            screen@ == (ScreenModel { bottom_action: Some(bottom@), ..self@ }),
    {
        Screen { bottom_action: Some(bottom), ..self }
    }

    pub fn with_page_turns(self, previous: ActionId, next: ActionId) -> (screen: Screen)
        ensures
            screen@ == (ScreenModel {
                page_turns: Some(PageTurns { previous, next, menu: None, position: None }),
                ..self@
            }),
    {
        Screen { page_turns: Some(PageTurns::new(previous, next)), ..self }
    }

    pub fn with_hold(self, hold: ActionId) -> (screen: Screen)
        ensures
            screen@ == (ScreenModel { hold: Some(hold), ..self@ }),
    {
        Screen { hold: Some(hold), ..self }
    }

    pub fn with_own_back(self, owns_back: bool) -> (screen: Screen)
        ensures
            screen@ == (ScreenModel { owns_back, ..self@ }),
    {
        Screen { owns_back, ..self }
    }

    pub fn with_text_scale(self, text_scale: Option<TextScale>) -> (screen: Screen)
        ensures
            screen@ == (ScreenModel { text_scale, ..self@ }),
    {
        Screen { text_scale, ..self }
    }

    pub fn with_reading(self, reading: bool) -> (screen: Screen)
        ensures
            screen@ == (ScreenModel { reading, ..self@ }),
    {
        Screen { reading, ..self }
    }

    pub fn with_reading_font(self, reading_font: Option<FontHandle>) -> (screen: Screen)
        ensures
            screen@ == (ScreenModel { reading_font, ..self@ }),
    {
        Screen { reading_font, ..self }
    }

    pub fn with_reading_surface(self, reading_surface: Option<ReadingSurface>) -> (screen: Screen)
        ensures
            screen@ == (ScreenModel { reading_surface, ..self@ }),
    {
        Screen { reading_surface, ..self }
    }

    pub fn with_overlay(self, overlay: Overlay) -> (screen: Screen)
        ensures
            screen@ == (ScreenModel { overlay: Some(overlay@), ..self@ }),
    {
        Screen { overlay: Some(Box::new(overlay)), ..self }
    }
}

} // verus!
