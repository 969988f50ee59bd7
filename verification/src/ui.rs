//! What an application asks to be drawn: screens, the bars around them and the
//! nodes inside them.

use vstd::prelude::*;

use crate::glyph::Glyph;
use crate::item;
use crate::item::{copied, copied_pairs};

verus! {

/// The name a control answers to.
#[derive(Clone, Copy, Debug, PartialEq, Eq, Structural)]
pub struct ActionId(pub u32);

/// The identity of one node on a screen.
#[derive(Clone, Copy, Debug, PartialEq, Eq, Structural)]
pub struct NodeId(pub u32);

/// A picture the runtime is holding.
#[derive(Clone, Copy, Debug, PartialEq, Eq, Structural)]
pub struct PictureHandle(pub u32);

/// A publisher font the runtime is holding.
#[derive(Clone, Copy, Debug, PartialEq, Eq, Structural)]
pub struct FontHandle(pub u32);

/// Whether a control answers taps.
#[derive(Clone, Copy, Debug, PartialEq, Eq, Structural)]
pub enum ControlState {
    Enabled,
    Disabled,
}

/// How loudly a button is drawn.
#[derive(Clone, Copy, Debug, PartialEq, Eq, Structural)]
pub enum Emphasis {
    Normal,
    Primary,
}

#[derive(Clone, Copy, Debug, PartialEq, Eq, Structural)]
pub enum BannerLevel {
    Info,
    Attention,
}

/// Vertical space from the design scale.
#[derive(Clone, Copy, Debug, PartialEq, Eq, Structural)]
pub enum Space {
    Tight,
    Small,
    Medium,
    Large,
}

#[derive(Clone, Copy, Debug, PartialEq, Eq, Structural)]
pub enum BandAlign {
    Top,
    Middle,
    Bottom,
}

/// How wide one column of a band is. A fixed width is in tenths of a millimetre.
#[derive(Clone, Copy, Debug, PartialEq, Eq, Structural)]
pub enum SlotWidth {
    Natural,
    Fill,
    Fixed(u16),
}

#[derive(Clone, Copy, Debug, PartialEq, Eq, Structural)]
pub enum TileShape {
    Square,
    Portrait,
}

#[derive(Clone, Copy, Debug, PartialEq, Eq, Structural)]
pub enum TileState {
    Normal,
    Held,
    Unavailable,
    Busy,
}

#[derive(Clone, Copy, Debug, PartialEq, Eq, Structural)]
pub enum RowState {
    Open,
    Done,
}

/// What a paragraph of a thread is for.
#[derive(Clone, Copy, Debug, PartialEq, Eq, Structural)]
pub enum QuoteRole {
    Body,
    Byline,
}

#[derive(Clone, Copy, Debug, PartialEq, Eq, Structural)]
pub enum ParagraphAlignment {
    Start,
    Center,
    End,
    Justify,
}

/// Whether a bar names places or verbs.
#[derive(Clone, Copy, Debug, PartialEq, Eq, Structural)]
pub enum BarStyle {
    Navigation,
    Actions,
}

#[derive(Clone, Copy, Debug, PartialEq, Eq, Structural)]
pub enum ReadingChrome {
    Hidden,
    Overlay,
}

#[derive(Clone, Copy, Debug, PartialEq, Eq, Structural)]
pub enum OverlayKind {
    Modal,
    Popover { anchor: ActionId },
}

/// The reader's text size.
#[derive(Clone, Copy, Debug, PartialEq, Eq, Structural)]
pub enum TextScale {
    Default,
    Large,
    ExtraLarge,
}

/// A share of a hundred, never more.
#[derive(Clone, Copy, Debug, PartialEq, Eq, Structural)]
pub struct Percent {
    pub value: u8,
}

#[derive(Clone, Copy, Debug, PartialEq, Eq, Structural)]
pub struct Caret {
    pub row: u16,
    pub column: u16,
}

/// A run of bytes of a paragraph that goes somewhere.
#[derive(Clone, Copy, Debug, PartialEq, Eq, Structural)]
pub struct TextLink {
    pub action: ActionId,
    pub start: usize,
    pub end: usize,
}

#[derive(Clone, Copy, Debug, PartialEq, Eq, Structural)]
pub struct TextPresentation {
    pub strong: bool,
    pub emphasis: bool,
    pub underline: bool,
    pub superscript: bool,
    pub subscript: bool,
    pub highlighted: bool,
}

#[derive(Clone, Copy, Debug, PartialEq, Eq, Structural)]
pub struct RichTextSpan {
    pub start: usize,
    pub end: usize,
    pub presentation: TextPresentation,
}

#[derive(Clone, Copy, Debug, PartialEq, Eq, Structural)]
pub struct ParagraphPresentation {
    pub alignment: ParagraphAlignment,
    pub line_height_percent: u16,
    pub margin_before_em: u16,
    pub margin_after_em: u16,
    pub first_line_indent_em: i16,
}

#[derive(Clone, Copy, Debug, PartialEq, Eq, Structural)]
pub struct TextSelection {
    pub context: u64,
    pub offset: u32,
}

/// A picture drawn over a run of bytes of a paragraph.
#[derive(Clone, Copy, Debug, PartialEq, Eq)]
pub struct InlineFormula {
    pub start: usize,
    pub end: usize,
    pub handle: PictureHandle,
    pub source: (u32, u32),
}

#[derive(Clone, Copy, Debug, PartialEq, Eq, Structural)]
pub struct Fold {
    pub action: ActionId,
    pub collapsed: bool,
    pub hidden: u16,
}

#[derive(Clone, Copy, Debug, PartialEq, Eq)]
pub struct TilePicture {
    pub handle: PictureHandle,
    pub source: (u32, u32),
}

/// What stands at the leading edge of a row.
#[derive(Clone, Copy, Debug, PartialEq, Eq)]
pub enum RowLead {
    Icon(Glyph),
    Number(u16),
    Picture(TilePicture, Glyph),
}

#[derive(Clone, Copy, Debug, PartialEq, Eq)]
pub struct ReadingSurface {
    pub id: NodeId,
    pub picture: TilePicture,
    pub chrome: ReadingChrome,
}

/// What the sides of the content area do.
#[derive(Clone, Copy, Debug, PartialEq, Eq)]
pub struct PageTurns {
    pub previous: ActionId,
    pub next: ActionId,
    pub menu: Option<ActionId>,
    pub position: Option<(u16, u16)>,
}

/// One control of a bar.
#[derive(Debug, PartialEq, Eq)]
pub struct BarAction {
    pub action: ActionId,
    pub label: String,
    pub glyph: Option<Glyph>,
}

/// What a [`BarAction`] says.
pub struct BarActionModel {
    pub action: ActionId,
    pub label: Seq<char>,
    pub glyph: Option<Glyph>,
}

impl View for BarAction {
    type V = BarActionModel;

    open spec fn view(&self) -> BarActionModel {
        BarActionModel {
            action: self.action,
            label: self.label@,
            glyph: self.glyph,
        }
    }
}

impl Clone for BarAction {
    fn clone(&self) -> (copy: Self)
        ensures
            copy@ == self@,
    {
        BarAction {
            action: self.action,
            label: self.label.clone(),
            glyph: self.glyph,
        }
    }
}

/// One control pinned where a bar would go.
#[derive(Debug, PartialEq, Eq)]
pub struct BottomAction {
    pub id: NodeId,
    pub action: BarAction,
}

/// What a [`BottomAction`] says.
pub struct BottomActionModel {
    pub id: NodeId,
    pub action: BarActionModel,
}

impl View for BottomAction {
    type V = BottomActionModel;

    open spec fn view(&self) -> BottomActionModel {
        BottomActionModel {
            id: self.id,
            action: self.action@,
        }
    }
}

impl Clone for BottomAction {
    fn clone(&self) -> (copy: Self)
        ensures
            copy@ == self@,
    {
        BottomAction {
            id: self.id,
            action: self.action.clone(),
        }
    }
}

#[derive(Debug, PartialEq, Eq)]
pub struct TopBar {
    pub id: NodeId,
    pub title: String,
    pub actions: Vec<BarAction>,
}

/// What a [`TopBar`] says.
pub struct TopBarModel {
    pub id: NodeId,
    pub title: Seq<char>,
    pub actions: Seq<BarActionModel>,
}

impl View for TopBar {
    type V = TopBarModel;

    open spec fn view(&self) -> TopBarModel {
        TopBarModel {
            id: self.id,
            title: self.title@,
            actions: item::models(self.actions@),
        }
    }
}

impl Clone for TopBar {
    fn clone(&self) -> (copy: Self)
        ensures
            copy@ == self@,
    {
        let actions = self.actions.clone();
        assert(item::models(actions@) =~= item::models(self.actions@));
        TopBar {
            id: self.id,
            title: self.title.clone(),
            actions,
        }
    }
}

#[derive(Debug, PartialEq, Eq)]
pub struct NavBar {
    pub id: NodeId,
    pub destinations: Vec<BarAction>,
    pub selected: Option<usize>,
    pub style: BarStyle,
}

/// What a [`NavBar`] says.
pub struct NavBarModel {
    pub id: NodeId,
    pub destinations: Seq<BarActionModel>,
    pub selected: Option<usize>,
    pub style: BarStyle,
}

impl View for NavBar {
    type V = NavBarModel;

    open spec fn view(&self) -> NavBarModel {
        NavBarModel {
            id: self.id,
            destinations: item::models(self.destinations@),
            selected: self.selected,
            style: self.style,
        }
    }
}

impl Clone for NavBar {
    fn clone(&self) -> (copy: Self)
        ensures
            copy@ == self@,
    {
        let destinations = self.destinations.clone();
        assert(item::models(destinations@) =~= item::models(self.destinations@));
        NavBar {
            id: self.id,
            destinations,
            selected: self.selected,
            style: self.style,
        }
    }
}

#[derive(Debug, PartialEq, Eq)]
pub struct Chip {
    pub action: ActionId,
    pub label: String,
    pub selected: bool,
}

/// What a [`Chip`] says.
pub struct ChipModel {
    pub action: ActionId,
    pub label: Seq<char>,
    pub selected: bool,
}

impl View for Chip {
    type V = ChipModel;

    open spec fn view(&self) -> ChipModel {
        ChipModel {
            action: self.action,
            label: self.label@,
            selected: self.selected,
        }
    }
}

impl Clone for Chip {
    fn clone(&self) -> (copy: Self)
        ensures
            copy@ == self@,
    {
        Chip {
            action: self.action,
            label: self.label.clone(),
            selected: self.selected,
        }
    }
}

#[derive(Debug, PartialEq, Eq)]
pub struct Cell {
    pub action: ActionId,
    pub label: String,
    pub glyph: Option<Glyph>,
}

/// What a [`Cell`] says.
pub struct CellModel {
    pub action: ActionId,
    pub label: Seq<char>,
    pub glyph: Option<Glyph>,
}

impl View for Cell {
    type V = CellModel;

    open spec fn view(&self) -> CellModel {
        CellModel {
            action: self.action,
            label: self.label@,
            glyph: self.glyph,
        }
    }
}

impl Clone for Cell {
    fn clone(&self) -> (copy: Self)
        ensures
            copy@ == self@,
    {
        Cell {
            action: self.action,
            label: self.label.clone(),
            glyph: self.glyph,
        }
    }
}

#[derive(Debug, PartialEq, Eq)]
pub struct Tile {
    pub action: ActionId,
    pub label: String,
    pub glyph: Glyph,
    pub picture: Option<TilePicture>,
    pub state: TileState,
    pub badge: String,
    pub subtitle: String,
}

/// What a [`Tile`] says.
pub struct TileModel {
    pub action: ActionId,
    pub label: Seq<char>,
    pub glyph: Glyph,
    pub picture: Option<TilePicture>,
    pub state: TileState,
    pub badge: Seq<char>,
    pub subtitle: Seq<char>,
}

impl View for Tile {
    type V = TileModel;

    open spec fn view(&self) -> TileModel {
        TileModel {
            action: self.action,
            label: self.label@,
            glyph: self.glyph,
            picture: self.picture,
            state: self.state,
            badge: self.badge@,
            subtitle: self.subtitle@,
        }
    }
}

impl Clone for Tile {
    fn clone(&self) -> (copy: Self)
        ensures
            copy@ == self@,
    {
        Tile {
            action: self.action,
            label: self.label.clone(),
            glyph: self.glyph,
            picture: self.picture,
            state: self.state,
            badge: self.badge.clone(),
            subtitle: self.subtitle.clone(),
        }
    }
}

#[derive(Debug, PartialEq, Eq)]
pub struct Row {
    pub action: ActionId,
    pub title: String,
    pub summary: String,
    pub lead: RowLead,
    pub state: RowState,
    pub trailing: Option<String>,
    pub menu: Option<ActionId>,
}

/// What a [`Row`] says.
pub struct RowModel {
    pub action: ActionId,
    pub title: Seq<char>,
    pub summary: Seq<char>,
    pub lead: RowLead,
    pub state: RowState,
    pub trailing: Option<Seq<char>>,
    pub menu: Option<ActionId>,
}

impl View for Row {
    type V = RowModel;

    open spec fn view(&self) -> RowModel {
        RowModel {
            action: self.action,
            title: self.title@,
            summary: self.summary@,
            lead: self.lead,
            state: self.state,
            trailing: match self.trailing { None => None, Some(inner) => Some(inner@) },
            menu: self.menu,
        }
    }
}

impl Clone for Row {
    fn clone(&self) -> (copy: Self)
        ensures
            copy@ == self@,
    {
        Row {
            action: self.action,
            title: self.title.clone(),
            summary: self.summary.clone(),
            lead: self.lead,
            state: self.state,
            trailing: match &self.trailing { None => None, Some(inner) => Some(inner.clone()) },
            menu: self.menu,
        }
    }
}

/// The free-text answer of a choice.
#[derive(Debug, PartialEq, Eq)]
pub struct Freeform {
    pub action: ActionId,
    pub placeholder: String,
}

/// What a [`Freeform`] says.
pub struct FreeformModel {
    pub action: ActionId,
    pub placeholder: Seq<char>,
}

impl View for Freeform {
    type V = FreeformModel;

    open spec fn view(&self) -> FreeformModel {
        FreeformModel {
            action: self.action,
            placeholder: self.placeholder@,
        }
    }
}

impl Clone for Freeform {
    fn clone(&self) -> (copy: Self)
        ensures
            copy@ == self@,
    {
        Freeform {
            action: self.action,
            placeholder: self.placeholder.clone(),
        }
    }
}

#[derive(Debug, PartialEq, Eq)]
pub struct TransferFailure {
    pub reason: String,
    pub resumable: bool,
}

/// What a [`TransferFailure`] says.
pub struct TransferFailureModel {
    pub reason: Seq<char>,
    pub resumable: bool,
}

impl View for TransferFailure {
    type V = TransferFailureModel;

    open spec fn view(&self) -> TransferFailureModel {
        TransferFailureModel {
            reason: self.reason@,
            resumable: self.resumable,
        }
    }
}

impl Clone for TransferFailure {
    fn clone(&self) -> (copy: Self)
        ensures
            copy@ == self@,
    {
        TransferFailure {
            reason: self.reason.clone(),
            resumable: self.resumable,
        }
    }
}

#[derive(Debug, PartialEq, Eq)]
pub struct TableRow {
    pub header: bool,
    pub cells: Vec<String>,
}

/// What a [`TableRow`] says.
pub struct TableRowModel {
    pub header: bool,
    pub cells: Seq<Seq<char>>,
}

impl View for TableRow {
    type V = TableRowModel;

    open spec fn view(&self) -> TableRowModel {
        TableRowModel {
            header: self.header,
            cells: item::models(self.cells@),
        }
    }
}

impl Clone for TableRow {
    fn clone(&self) -> (copy: Self)
        ensures
            copy@ == self@,
    {
        let cells = self.cells.clone();
        assert(item::models(cells@) =~= item::models(self.cells@));
        TableRow {
            header: self.header,
            cells,
        }
    }
}

/// One column of a band.
#[derive(Debug, PartialEq, Eq)]
pub struct BandSlot {
    pub width: SlotWidth,
    pub nodes: Vec<Node>,
}

/// What a [`BandSlot`] says.
pub struct BandSlotModel {
    pub width: SlotWidth,
    pub nodes: Seq<NodeModel>,
}

/// One thing on a screen.
#[allow(inconsistent_fields)]
#[derive(Debug, PartialEq, Eq)]
pub enum Node {
    Heading { id: NodeId, text: String, level: u8 },
    Text { id: NodeId, text: String, links: Vec<TextLink> },
    RichText {
        id: NodeId,
        text: String,
        spans: Vec<RichTextSpan>,
        links: Vec<TextLink>,
        presentation: ParagraphPresentation,
        selection: Option<TextSelection>,
        formulae: Vec<InlineFormula>,
    },
    Secondary { id: NodeId, text: String },
    Section { id: NodeId, title: String, value: Option<String> },
    Quote { id: NodeId, depth: u8, role: QuoteRole, text: String, fold: Option<Fold> },
    Button { id: NodeId, action: ActionId, label: String, state: ControlState, emphasis: Emphasis },
    Card { id: NodeId, children: Vec<Node> },
    Field {
        id: NodeId,
        action: ActionId,
        value: String,
        placeholder: String,
        clear: Option<ActionId>,
    },
    Chips { id: NodeId, chips: Vec<Chip> },
    Tabs { id: NodeId, tabs: Vec<Chip>, selected: usize },
    Facts { id: NodeId, entries: Vec<(String, String)> },
    Band { id: NodeId, align: BandAlign, slots: Vec<BandSlot> },
    Divider { id: NodeId },
    Flex { id: NodeId },
    Spacer { id: NodeId, space: Space },
    Progress { id: NodeId, value: Percent },
    PagedList { id: NodeId, page: u16, items: Vec<String> },
    Grid { id: NodeId, columns: u8, square: bool, cells: Vec<Cell> },
    Rows { id: NodeId, rows: Vec<Row> },
    TileGrid { id: NodeId, tiles: Vec<Tile>, shape: TileShape },
    Picture {
        id: NodeId,
        handle: PictureHandle,
        source: (u32, u32),
        max_height_tenths_mm: u16,
        framed: bool,
    },
    Table { id: NodeId, rows: Vec<TableRow>, weights: Vec<u16> },
    Stepper {
        id: NodeId,
        label: String,
        less: BarAction,
        more: BarAction,
        less_state: ControlState,
        more_state: ControlState,
        fill: Option<u8>,
    },
    Choice {
        id: NodeId,
        prompt: String,
        options: Vec<BarAction>,
        selected: Option<u8>,
        freeform: Option<Freeform>,
    },
    Banner { id: NodeId, level: BannerLevel, text: String },
    Skeleton { id: NodeId, lines: u8 },
    Splash { id: NodeId, glyph: Option<Glyph>, title: String, summary: String },
    Activity {
        id: NodeId,
        label: String,
        progress: Option<Percent>,
        cancel: Option<BarAction>,
        transferred: Option<(u64, Option<u64>)>,
        failure: Option<TransferFailure>,
    },
    Terminal { id: NodeId, rows: Vec<String>, cursor: Option<Caret> },
}

/// What a [`Node`] says.
#[allow(inconsistent_fields)]
pub enum NodeModel {
    Heading { id: NodeId, text: Seq<char>, level: u8 },
    Text { id: NodeId, text: Seq<char>, links: Seq<TextLink> },
    RichText {
        id: NodeId,
        text: Seq<char>,
        spans: Seq<RichTextSpan>,
        links: Seq<TextLink>,
        presentation: ParagraphPresentation,
        selection: Option<TextSelection>,
        formulae: Seq<InlineFormula>,
    },
    Secondary { id: NodeId, text: Seq<char> },
    Section { id: NodeId, title: Seq<char>, value: Option<Seq<char>> },
    Quote { id: NodeId, depth: u8, role: QuoteRole, text: Seq<char>, fold: Option<Fold> },
    Button {
        id: NodeId,
        action: ActionId,
        label: Seq<char>,
        state: ControlState,
        emphasis: Emphasis,
    },
    Card { id: NodeId, children: Seq<NodeModel> },
    Field {
        id: NodeId,
        action: ActionId,
        value: Seq<char>,
        placeholder: Seq<char>,
        clear: Option<ActionId>,
    },
    Chips { id: NodeId, chips: Seq<ChipModel> },
    Tabs { id: NodeId, tabs: Seq<ChipModel>, selected: usize },
    Facts { id: NodeId, entries: Seq<(Seq<char>, Seq<char>)> },
    Band { id: NodeId, align: BandAlign, slots: Seq<BandSlotModel> },
    Divider { id: NodeId },
    Flex { id: NodeId },
    Spacer { id: NodeId, space: Space },
    Progress { id: NodeId, value: Percent },
    PagedList { id: NodeId, page: u16, items: Seq<Seq<char>> },
    Grid { id: NodeId, columns: u8, square: bool, cells: Seq<CellModel> },
    Rows { id: NodeId, rows: Seq<RowModel> },
    TileGrid { id: NodeId, tiles: Seq<TileModel>, shape: TileShape },
    Picture {
        id: NodeId,
        handle: PictureHandle,
        source: (u32, u32),
        max_height_tenths_mm: u16,
        framed: bool,
    },
    Table { id: NodeId, rows: Seq<TableRowModel>, weights: Seq<u16> },
    Stepper {
        id: NodeId,
        label: Seq<char>,
        less: BarActionModel,
        more: BarActionModel,
        less_state: ControlState,
        more_state: ControlState,
        fill: Option<u8>,
    },
    Choice {
        id: NodeId,
        prompt: Seq<char>,
        options: Seq<BarActionModel>,
        selected: Option<u8>,
        freeform: Option<FreeformModel>,
    },
    Banner { id: NodeId, level: BannerLevel, text: Seq<char> },
    Skeleton { id: NodeId, lines: u8 },
    Splash { id: NodeId, glyph: Option<Glyph>, title: Seq<char>, summary: Seq<char> },
    Activity {
        id: NodeId,
        label: Seq<char>,
        progress: Option<Percent>,
        cancel: Option<BarActionModel>,
        transferred: Option<(u64, Option<u64>)>,
        failure: Option<TransferFailureModel>,
    },
    Terminal { id: NodeId, rows: Seq<Seq<char>>, cursor: Option<Caret> },
}

impl Node {
    /// What this node says.
    pub open spec fn model(self) -> NodeModel
        decreases self,
    {
        match self {
            Node::Heading { id, text, level } => NodeModel::Heading {
                    id,
                    text: text@,
                    level,
                },
                Node::Text { id, text, links } => NodeModel::Text {
                    id,
                    text: text@,
                    links: links@,
                },
                Node::RichText {
                    id,
                    text,
                    spans,
                    links,
                    presentation,
                    selection,
                    formulae,
                } => NodeModel::RichText {
                    id,
                    text: text@,
                    spans: spans@,
                    links: links@,
                    presentation,
                    selection,
                    formulae: formulae@,
                },
                Node::Secondary { id, text } => NodeModel::Secondary {
                    id,
                    text: text@,
                },
                Node::Section { id, title, value } => NodeModel::Section {
                    id,
                    title: title@,
                    value: match value { None => None, Some(inner) => Some(inner@) },
                },
                Node::Quote { id, depth, role, text, fold } => NodeModel::Quote {
                    id,
                    depth,
                    role,
                    text: text@,
                    fold,
                },
                Node::Button { id, action, label, state, emphasis } => NodeModel::Button {
                    id,
                    action,
                    label: label@,
                    state,
                    emphasis,
                },
                Node::Card { id, children } => NodeModel::Card {
                    id,
                    children: node_models(children@),
                },
                Node::Field { id, action, value, placeholder, clear } => NodeModel::Field {
                    id,
                    action,
                    value: value@,
                    placeholder: placeholder@,
                    clear,
                },
                Node::Chips { id, chips } => NodeModel::Chips {
                    id,
                    chips: item::models(chips@),
                },
                Node::Tabs { id, tabs, selected } => NodeModel::Tabs {
                    id,
                    tabs: item::models(tabs@),
                    selected,
                },
                Node::Facts { id, entries } => NodeModel::Facts {
                    id,
                    entries: item::models(entries@),
                },
                Node::Band { id, align, slots } => NodeModel::Band {
                    id,
                    align,
                    slots: slot_models(slots@),
                },
                Node::Divider { id } => NodeModel::Divider {
                    id,
                },
                Node::Flex { id } => NodeModel::Flex {
                    id,
                },
                Node::Spacer { id, space } => NodeModel::Spacer {
                    id,
                    space,
                },
                Node::Progress { id, value } => NodeModel::Progress {
                    id,
                    value,
                },
                Node::PagedList { id, page, items } => NodeModel::PagedList {
                    id,
                    page,
                    items: item::models(items@),
                },
                Node::Grid { id, columns, square, cells } => NodeModel::Grid {
                    id,
                    columns,
                    square,
                    cells: item::models(cells@),
                },
                Node::Rows { id, rows } => NodeModel::Rows {
                    id,
                    rows: item::models(rows@),
                },
                Node::TileGrid { id, tiles, shape } => NodeModel::TileGrid {
                    id,
                    tiles: item::models(tiles@),
                    shape,
                },
                Node::Picture {
                    id,
                    handle,
                    source,
                    max_height_tenths_mm,
                    framed,
                } => NodeModel::Picture {
                    id,
                    handle,
                    source,
                    max_height_tenths_mm,
                    framed,
                },
                Node::Table { id, rows, weights } => NodeModel::Table {
                    id,
                    rows: item::models(rows@),
                    weights: weights@,
                },
                Node::Stepper {
                    id,
                    label,
                    less,
                    more,
                    less_state,
                    more_state,
                    fill,
                } => NodeModel::Stepper {
                    id,
                    label: label@,
                    less: less@,
                    more: more@,
                    less_state,
                    more_state,
                    fill,
                },
                Node::Choice { id, prompt, options, selected, freeform } => NodeModel::Choice {
                    id,
                    prompt: prompt@,
                    options: item::models(options@),
                    selected,
                    freeform: match freeform { None => None, Some(inner) => Some(inner@) },
                },
                Node::Banner { id, level, text } => NodeModel::Banner {
                    id,
                    level,
                    text: text@,
                },
                Node::Skeleton { id, lines } => NodeModel::Skeleton {
                    id,
                    lines,
                },
                Node::Splash { id, glyph, title, summary } => NodeModel::Splash {
                    id,
                    glyph,
                    title: title@,
                    summary: summary@,
                },
                Node::Activity {
                    id,
                    label,
                    progress,
                    cancel,
                    transferred,
                    failure,
                } => NodeModel::Activity {
                    id,
                    label: label@,
                    progress,
                    cancel: match cancel { None => None, Some(inner) => Some(inner@) },
                    transferred,
                    failure: match failure { None => None, Some(inner) => Some(inner@) },
                },
                Node::Terminal { id, rows, cursor } => NodeModel::Terminal {
                    id,
                    rows: item::models(rows@),
                    cursor,
                },
        }
    }
}

/// What a run of nodes says.
pub open spec fn node_models(nodes: Seq<Node>) -> Seq<NodeModel>
    decreases nodes,
{
    Seq::new(
        nodes.len(),
        |i: int|
            if 0 <= i < nodes.len() {
                nodes[i].model()
            } else {
                arbitrary()
            },
    )
}

/// What a run of columns says.
pub open spec fn slot_models(slots: Seq<BandSlot>) -> Seq<BandSlotModel>
    decreases slots,
{
    Seq::new(
        slots.len(),
        |i: int|
            if 0 <= i < slots.len() {
                slots[i].model()
            } else {
                arbitrary()
            },
    )
}

impl BandSlot {
    /// What this column says.
    pub open spec fn model(self) -> BandSlotModel
        decreases self,
    {
        BandSlotModel { width: self.width, nodes: node_models(self.nodes@) }
    }
}

impl View for Node {
    type V = NodeModel;

    open spec fn view(&self) -> NodeModel {
        self.model()
    }
}

impl View for BandSlot {
    type V = BandSlotModel;

    open spec fn view(&self) -> BandSlotModel {
        self.model()
    }
}

fn copy_node(node: &Node) -> (copy: Node)
    ensures
        copy@ == node@,
    decreases node,
{
    match node {
        Node::Heading { id, text, level } => {
            Node::Heading {
                id: *id,
                text: text.clone(),
                level: *level,
            }
        },
        Node::Text { id, text, links } => {
            Node::Text {
                id: *id,
                text: text.clone(),
                links: copied(links),
            }
        },
        Node::RichText { id, text, spans, links, presentation, selection, formulae } => {
            Node::RichText {
                id: *id,
                text: text.clone(),
                spans: copied(spans),
                links: copied(links),
                presentation: *presentation,
                selection: *selection,
                formulae: copied(formulae),
            }
        },
        Node::Secondary { id, text } => {
            Node::Secondary {
                id: *id,
                text: text.clone(),
            }
        },
        Node::Section { id, title, value } => {
            Node::Section {
                id: *id,
                title: title.clone(),
                value: match value { None => None, Some(inner) => Some(inner.clone()) },
            }
        },
        Node::Quote { id, depth, role, text, fold } => {
            Node::Quote {
                id: *id,
                depth: *depth,
                role: *role,
                text: text.clone(),
                fold: *fold,
            }
        },
        Node::Button { id, action, label, state, emphasis } => {
            Node::Button {
                id: *id,
                action: *action,
                label: label.clone(),
                state: *state,
                emphasis: *emphasis,
            }
        },
        Node::Card { id, children } => {
            Node::Card {
                id: *id,
                children: copy_nodes(children),
            }
        },
        Node::Field { id, action, value, placeholder, clear } => {
            Node::Field {
                id: *id,
                action: *action,
                value: value.clone(),
                placeholder: placeholder.clone(),
                clear: *clear,
            }
        },
        Node::Chips { id, chips } => {
            let copy_of_chips = chips.clone();
            assert(item::models(copy_of_chips@) =~= item::models(chips@));
            Node::Chips {
                id: *id,
                chips: copy_of_chips,
            }
        },
        Node::Tabs { id, tabs, selected } => {
            let copy_of_tabs = tabs.clone();
            assert(item::models(copy_of_tabs@) =~= item::models(tabs@));
            Node::Tabs {
                id: *id,
                tabs: copy_of_tabs,
                selected: *selected,
            }
        },
        Node::Facts { id, entries } => {
            Node::Facts {
                id: *id,
                entries: copied_pairs(entries),
            }
        },
        Node::Band { id, align, slots } => {
            Node::Band {
                id: *id,
                align: *align,
                slots: copy_slots(slots),
            }
        },
        Node::Divider { id } => {
            Node::Divider {
                id: *id,
            }
        },
        Node::Flex { id } => {
            Node::Flex {
                id: *id,
            }
        },
        Node::Spacer { id, space } => {
            Node::Spacer {
                id: *id,
                space: *space,
            }
        },
        Node::Progress { id, value } => {
            Node::Progress {
                id: *id,
                value: *value,
            }
        },
        Node::PagedList { id, page, items } => {
            let copy_of_items = items.clone();
            assert(item::models(copy_of_items@) =~= item::models(items@));
            Node::PagedList {
                id: *id,
                page: *page,
                items: copy_of_items,
            }
        },
        Node::Grid { id, columns, square, cells } => {
            let copy_of_cells = cells.clone();
            assert(item::models(copy_of_cells@) =~= item::models(cells@));
            Node::Grid {
                id: *id,
                columns: *columns,
                square: *square,
                cells: copy_of_cells,
            }
        },
        Node::Rows { id, rows } => {
            let copy_of_rows = rows.clone();
            assert(item::models(copy_of_rows@) =~= item::models(rows@));
            Node::Rows {
                id: *id,
                rows: copy_of_rows,
            }
        },
        Node::TileGrid { id, tiles, shape } => {
            let copy_of_tiles = tiles.clone();
            assert(item::models(copy_of_tiles@) =~= item::models(tiles@));
            Node::TileGrid {
                id: *id,
                tiles: copy_of_tiles,
                shape: *shape,
            }
        },
        Node::Picture { id, handle, source, max_height_tenths_mm, framed } => {
            Node::Picture {
                id: *id,
                handle: *handle,
                source: *source,
                max_height_tenths_mm: *max_height_tenths_mm,
                framed: *framed,
            }
        },
        Node::Table { id, rows, weights } => {
            let copy_of_rows = rows.clone();
            assert(item::models(copy_of_rows@) =~= item::models(rows@));
            Node::Table {
                id: *id,
                rows: copy_of_rows,
                weights: copied(weights),
            }
        },
        Node::Stepper { id, label, less, more, less_state, more_state, fill } => {
            Node::Stepper {
                id: *id,
                label: label.clone(),
                less: less.clone(),
                more: more.clone(),
                less_state: *less_state,
                more_state: *more_state,
                fill: *fill,
            }
        },
        Node::Choice { id, prompt, options, selected, freeform } => {
            let copy_of_options = options.clone();
            assert(item::models(copy_of_options@) =~= item::models(options@));
            Node::Choice {
                id: *id,
                prompt: prompt.clone(),
                options: copy_of_options,
                selected: *selected,
                freeform: match freeform { None => None, Some(inner) => Some(inner.clone()) },
            }
        },
        Node::Banner { id, level, text } => {
            Node::Banner {
                id: *id,
                level: *level,
                text: text.clone(),
            }
        },
        Node::Skeleton { id, lines } => {
            Node::Skeleton {
                id: *id,
                lines: *lines,
            }
        },
        Node::Splash { id, glyph, title, summary } => {
            Node::Splash {
                id: *id,
                glyph: *glyph,
                title: title.clone(),
                summary: summary.clone(),
            }
        },
        Node::Activity { id, label, progress, cancel, transferred, failure } => {
            Node::Activity {
                id: *id,
                label: label.clone(),
                progress: *progress,
                cancel: match cancel { None => None, Some(inner) => Some(inner.clone()) },
                transferred: *transferred,
                failure: match failure { None => None, Some(inner) => Some(inner.clone()) },
            }
        },
        Node::Terminal { id, rows, cursor } => {
            let copy_of_rows = rows.clone();
            assert(item::models(copy_of_rows@) =~= item::models(rows@));
            Node::Terminal {
                id: *id,
                rows: copy_of_rows,
                cursor: *cursor,
            }
        },
    }
}

fn copy_nodes(nodes: &Vec<Node>) -> (copy: Vec<Node>)
    ensures
        node_models(copy@) == node_models(nodes@),
    decreases nodes,
{
    let mut copy: Vec<Node> = Vec::new();
    let mut index: usize = 0;
    while index < nodes.len()
        invariant
            index == copy@.len(),
            index <= nodes@.len(),
            forall|i: int| 0 <= i < index ==> (#[trigger] copy@[i])@ == nodes@[i]@,
        decreases nodes@.len() - index,
    {
        copy.push(copy_node(&nodes[index]));
        index = index + 1;
    }
    assert(node_models(copy@) =~= node_models(nodes@));
    copy
}

fn copy_slots(slots: &Vec<BandSlot>) -> (copy: Vec<BandSlot>)
    ensures
        slot_models(copy@) == slot_models(slots@),
    decreases slots,
{
    let mut copy: Vec<BandSlot> = Vec::new();
    let mut index: usize = 0;
    while index < slots.len()
        invariant
            index == copy@.len(),
            index <= slots@.len(),
            forall|i: int| 0 <= i < index ==> (#[trigger] copy@[i])@ == slots@[i]@,
        decreases slots@.len() - index,
    {
        let slot = &slots[index];
        copy.push(BandSlot { width: slot.width, nodes: copy_nodes(&slot.nodes) });
        index = index + 1;
    }
    assert(slot_models(copy@) =~= slot_models(slots@));
    copy
}

impl Clone for Node {
    fn clone(&self) -> (copy: Self)
        ensures
            copy@ == self@,
    {
        copy_node(self)
    }
}

impl Clone for BandSlot {
    fn clone(&self) -> (copy: Self)
        ensures
            copy@ == self@,
    {
        BandSlot { width: self.width, nodes: copy_nodes(&self.nodes) }
    }
}

/// Something laid over a screen.
#[derive(Debug, PartialEq, Eq)]
pub struct Overlay {
    pub id: NodeId,
    pub kind: OverlayKind,
    pub title: String,
    pub nodes: Vec<Node>,
}

/// What a [`Overlay`] says.
pub struct OverlayModel {
    pub id: NodeId,
    pub kind: OverlayKind,
    pub title: Seq<char>,
    pub nodes: Seq<NodeModel>,
}

impl View for Overlay {
    type V = OverlayModel;

    open spec fn view(&self) -> OverlayModel {
        OverlayModel {
            id: self.id,
            kind: self.kind,
            title: self.title@,
            nodes: node_models(self.nodes@),
        }
    }
}

impl Clone for Overlay {
    fn clone(&self) -> (copy: Self)
        ensures
            copy@ == self@,
    {
        Overlay {
            id: self.id,
            kind: self.kind,
            title: self.title.clone(),
            nodes: copy_nodes(&self.nodes),
        }
    }
}

/// Everything on the panel at once.
#[derive(Debug, PartialEq, Eq)]
pub struct Screen {
    pub id: u32,
    pub top_bar: Option<TopBar>,
    pub reading_surface: Option<ReadingSurface>,
    pub nodes: Vec<Node>,
    pub nav_bar: Option<NavBar>,
    pub bottom_action: Option<BottomAction>,
    pub page_turns: Option<PageTurns>,
    pub hold: Option<ActionId>,
    pub owns_back: bool,
    pub text_scale: Option<TextScale>,
    pub overlay: Option<Box<Overlay>>,
    pub reading: bool,
    pub reading_font: Option<FontHandle>,
}

/// What a [`Screen`] says.
pub struct ScreenModel {
    pub id: u32,
    pub top_bar: Option<TopBarModel>,
    pub reading_surface: Option<ReadingSurface>,
    pub nodes: Seq<NodeModel>,
    pub nav_bar: Option<NavBarModel>,
    pub bottom_action: Option<BottomActionModel>,
    pub page_turns: Option<PageTurns>,
    pub hold: Option<ActionId>,
    pub owns_back: bool,
    pub text_scale: Option<TextScale>,
    pub overlay: Option<OverlayModel>,
    pub reading: bool,
    pub reading_font: Option<FontHandle>,
}

impl View for Screen {
    type V = ScreenModel;

    open spec fn view(&self) -> ScreenModel {
        ScreenModel {
            id: self.id,
            top_bar: match self.top_bar { None => None, Some(inner) => Some(inner@) },
            reading_surface: self.reading_surface,
            nodes: node_models(self.nodes@),
            nav_bar: match self.nav_bar { None => None, Some(inner) => Some(inner@) },
            bottom_action: match self.bottom_action { None => None, Some(inner) => Some(inner@) },
            page_turns: self.page_turns,
            hold: self.hold,
            owns_back: self.owns_back,
            text_scale: self.text_scale,
            overlay: match self.overlay { None => None, Some(inner) => Some((*inner)@) },
            reading: self.reading,
            reading_font: self.reading_font,
        }
    }
}

impl Clone for Screen {
    fn clone(&self) -> (copy: Self)
        ensures
            copy@ == self@,
    {
        Screen {
            id: self.id,
            top_bar: match &self.top_bar { None => None, Some(inner) => Some(inner.clone()) },
            reading_surface: self.reading_surface,
            nodes: copy_nodes(&self.nodes),
            nav_bar: match &self.nav_bar { None => None, Some(inner) => Some(inner.clone()) },
            bottom_action: match &self.bottom_action {
                None => None,
                Some(inner) => Some(inner.clone()),
            },
            page_turns: self.page_turns,
            hold: self.hold,
            owns_back: self.owns_back,
            text_scale: self.text_scale,
            overlay: match &self.overlay {
                None => None,
                Some(inner) => Some(Box::new((**inner).clone())),
            },
            reading: self.reading,
            reading_font: self.reading_font,
        }
    }
}

} // verus!
