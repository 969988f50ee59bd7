//! Lists on a screen.

use vstd::prelude::*;

use crate::builder::{BuilderModel, ScreenBuilder};
use crate::glyph::Glyph;
use crate::item;
use crate::limits::{MAX_CELLS, MAX_CHOICE_OPTIONS, MAX_COLUMNS, MAX_ROWS};
use crate::metadata::AppMetadata;
use crate::name;
use crate::prose;
use crate::ui::{
    ActionId, BarAction, BarActionModel, Cell, CellModel, Chip, ChipModel, Node, NodeModel, Row,
    RowLead, RowModel, RowState, Tile, TileModel, TilePicture, TileShape, TileState,
};

verus! {

/// One entry of a list: a name, and what the control of that name is.
pub trait Entry<Made: View>: Sized {
    /// The name the control answers to.
    spec fn called(self) -> Seq<char>;

    /// The control.
    spec fn control(self) -> Made::V;

    fn name(&self) -> (name: &str)
        ensures
            name@ == self.called(),
    ;

    fn make(&self, action: ActionId) -> (made: Made)
        requires
            action == name::action_of(self.called()),
        ensures
            made@ == self.control(),
    ;
}

/// The names of a run of entries.
pub open spec fn names_of<Made: View, E: Entry<Made>>(entries: Seq<E>) -> Seq<Seq<char>> {
    entries.map_values(|entry: E| entry.called())
}

/// The controls of a run of entries.
pub open spec fn controls_of<Made: View, E: Entry<Made>>(entries: Seq<E>) -> Seq<Made::V> {
    entries.map_values(|entry: E| entry.control())
}

impl ScreenBuilder {
    /// Makes the controls of a list, and no more of them than are shown.
    pub(crate) fn make_all<Made: View, E: Entry<Made>>(
        &mut self,
        entries: &Vec<E>,
        limit: usize,
    ) -> (made: Vec<Made>)
        ensures
            item::models(made@) == controls_of::<Made, E>(
                prose::at_most(entries@, limit as int),
            ),
            final(self)@ == old(self)@.named_all(
                names_of::<Made, E>(prose::at_most(entries@, limit as int)),
            ),
    {
        let count: usize = if entries.len() <= limit {
            entries.len()
        } else {
            limit
        };
        let ghost shown = prose::at_most(entries@, limit as int);
        let ghost names = names_of::<Made, E>(shown);
        let mut made: Vec<Made> = Vec::new();
        let mut index: usize = 0;
        assert(names.take(0) =~= Seq::empty());
        while index < count
            invariant
                index <= count,
                count == shown.len(),
                count <= entries@.len(),
                shown == prose::at_most(entries@, limit as int),
                names == names_of::<Made, E>(shown),
                index == made@.len(),
                forall|i: int| 0 <= i < index ==> (#[trigger] made@[i])@ == shown[i].control(),
                self@ == old(self)@.named_all(names.take(index as int)),
            decreases count - index,
        {
            let entry = &entries[index];
            assert(shown[index as int] == *entry);
            assert(names.take(index + 1).drop_last() =~= names.take(index as int));
            let action = self.register(entry.name());
            made.push(entry.make(action));
            index = index + 1;
        }
        assert(names.take(count as int) =~= names);
        assert(item::models(made@) =~= controls_of::<Made, E>(shown));
        made
    }
}

impl<'a> Entry<BarAction> for (&'a str, &'a str) {
    open spec fn called(self) -> Seq<char> {
        self.0@
    }

    open spec fn control(self) -> BarActionModel {
        BarActionModel { action: name::action_of(self.0@), label: self.1@, glyph: None }
    }

    fn name(&self) -> (name: &str) {
        self.0
    }

    fn make(&self, action: ActionId) -> (made: BarAction) {
        BarAction::new(action, self.1)
    }
}

impl<'a> Entry<BarAction> for (&'a str, &'a str, Option<Glyph>) {
    open spec fn called(self) -> Seq<char> {
        self.0@
    }

    open spec fn control(self) -> BarActionModel {
        BarActionModel { action: name::action_of(self.0@), label: self.1@, glyph: self.2 }
    }

    fn name(&self) -> (name: &str) {
        self.0
    }

    fn make(&self, action: ActionId) -> (made: BarAction) {
        let control = BarAction::new(action, self.1);
        match self.2 {
            Some(glyph) => control.with_glyph(glyph),
            None => control,
        }
    }
}

impl<'a> Entry<Chip> for (&'a str, &'a str) {
    open spec fn called(self) -> Seq<char> {
        self.0@
    }

    open spec fn control(self) -> ChipModel {
        ChipModel { action: name::action_of(self.0@), label: self.1@, selected: false }
    }

    fn name(&self) -> (name: &str) {
        self.0
    }

    fn make(&self, action: ActionId) -> (made: Chip) {
        Chip::new(action, self.1)
    }
}

impl<'a> Entry<Chip> for (&'a str, &'a str, bool) {
    open spec fn called(self) -> Seq<char> {
        self.0@
    }

    open spec fn control(self) -> ChipModel {
        ChipModel { action: name::action_of(self.0@), label: self.1@, selected: self.2 }
    }

    fn name(&self) -> (name: &str) {
        self.0
    }

    fn make(&self, action: ActionId) -> (made: Chip) {
        Chip::new(action, self.1).selected(self.2)
    }
}

impl<'a> Entry<Cell> for (&'a str, &'a str) {
    open spec fn called(self) -> Seq<char> {
        self.0@
    }

    open spec fn control(self) -> CellModel {
        CellModel { action: name::action_of(self.0@), label: self.1@, glyph: None }
    }

    fn name(&self) -> (name: &str) {
        self.0
    }

    fn make(&self, action: ActionId) -> (made: Cell) {
        Cell::new(action, self.1)
    }
}

impl<'a> Entry<Cell> for (&'a str, &'a str, Option<Glyph>) {
    open spec fn called(self) -> Seq<char> {
        self.0@
    }

    open spec fn control(self) -> CellModel {
        CellModel { action: name::action_of(self.0@), label: self.1@, glyph: self.2 }
    }

    fn name(&self) -> (name: &str) {
        self.0
    }

    fn make(&self, action: ActionId) -> (made: Cell) {
        let cell = Cell::new(action, self.1);
        match self.2 {
            Some(glyph) => cell.with_glyph(glyph),
            None => cell,
        }
    }
}

impl<'a> Entry<Cell> for (&'a str, &'a str, Glyph) {
    open spec fn called(self) -> Seq<char> {
        self.0@
    }

    open spec fn control(self) -> CellModel {
        CellModel { action: name::action_of(self.0@), label: self.1@, glyph: Some(self.2) }
    }

    fn name(&self) -> (name: &str) {
        self.0
    }

    fn make(&self, action: ActionId) -> (made: Cell) {
        Cell::new(action, self.1).with_glyph(self.2)
    }
}

impl<'a> Entry<Tile> for (&'a str, &'a str, Glyph) {
    open spec fn called(self) -> Seq<char> {
        self.0@
    }

    open spec fn control(self) -> TileModel {
        TileModel {
            action: name::action_of(self.0@),
            label: self.1@,
            glyph: self.2,
            picture: None,
            state: TileState::Normal,
            badge: Seq::empty(),
            subtitle: Seq::empty(),
        }
    }

    fn name(&self) -> (name: &str) {
        self.0
    }

    fn make(&self, action: ActionId) -> (made: Tile) {
        Tile::new(action, self.1, self.2)
    }
}

impl<'a> Entry<Tile> for (&'a str, &'a str, Glyph, Option<TilePicture>) {
    open spec fn called(self) -> Seq<char> {
        self.0@
    }

    open spec fn control(self) -> TileModel {
        TileModel {
            action: name::action_of(self.0@),
            label: self.1@,
            glyph: self.2,
            picture: self.3,
            state: TileState::Normal,
            badge: Seq::empty(),
            subtitle: Seq::empty(),
        }
    }

    fn name(&self) -> (name: &str) {
        self.0
    }

    fn make(&self, action: ActionId) -> (made: Tile) {
        let tile = Tile::new(action, self.1, self.2);
        match self.3 {
            Some(picture) => tile.with_picture(picture),
            None => tile,
        }
    }
}

impl Entry<Tile> for AppMetadata {
    open spec fn called(self) -> Seq<char> {
        self.id@
    }

    open spec fn control(self) -> TileModel {
        self.icon.tile_model(name::action_of(self.id@), self.display_name@)
    }

    fn name(&self) -> (name: &str) {
        self.id
    }

    fn make(&self, action: ActionId) -> (made: Tile) {
        self.tile(action)
    }
}

impl<'a> Entry<Row> for (&'a str, &'a str, &'a str, RowLead) {
    open spec fn called(self) -> Seq<char> {
        self.0@
    }

    open spec fn control(self) -> RowModel {
        RowModel {
            action: name::action_of(self.0@),
            title: self.1@,
            summary: self.2@,
            lead: self.3,
            state: RowState::Open,
            trailing: None,
            menu: None,
        }
    }

    fn name(&self) -> (name: &str) {
        self.0
    }

    fn make(&self, action: ActionId) -> (made: Row) {
        Row::new(action, self.1, self.2, self.3)
    }
}

impl<'a> Entry<Row> for (&'a str, &'a str, &'a str, RowLead, &'a str) {
    open spec fn called(self) -> Seq<char> {
        self.0@
    }

    open spec fn control(self) -> RowModel {
        RowModel {
            action: name::action_of(self.0@),
            title: self.1@,
            summary: self.2@,
            lead: self.3,
            state: RowState::Open,
            trailing: if self.4@.len() == 0 {
                None
            } else {
                Some(self.4@)
            },
            menu: None,
        }
    }

    fn name(&self) -> (name: &str) {
        self.0
    }

    fn make(&self, action: ActionId) -> (made: Row) {
        let row = Row::new(action, self.1, self.2, self.3);
        if self.4.unicode_len() == 0 {
            row
        } else {
            row.with_trailing(self.4)
        }
    }
}

impl<'a> Entry<Row> for (&'a str, &'a str, &'a str, bool) {
    open spec fn called(self) -> Seq<char> {
        self.0@
    }

    open spec fn control(self) -> RowModel {
        RowModel {
            action: name::action_of(self.0@),
            title: self.1@,
            summary: self.2@,
            lead: RowLead::Icon(
                if self.3 {
                    Glyph::Check
                } else {
                    Glyph::Circle
                },
            ),
            state: if self.3 {
                RowState::Done
            } else {
                RowState::Open
            },
            trailing: None,
            menu: None,
        }
    }

    fn name(&self) -> (name: &str) {
        self.0
    }

    fn make(&self, action: ActionId) -> (made: Row) {
        let glyph = if self.3 {
            Glyph::Check
        } else {
            Glyph::Circle
        };
        Row::new(action, self.1, self.2, RowLead::Icon(glyph)).done(self.3)
    }
}

/// The number of columns of a grid: at least one, and no more than fit.
pub open spec fn columns_shown(columns: u8) -> u8 {
    if columns < 1 {
        1
    } else if columns > MAX_COLUMNS {
        MAX_COLUMNS
    } else {
        columns
    }
}

fn clamp_columns(columns: u8) -> (shown: u8)
    ensures
        shown == columns_shown(columns),
{
    if columns < 1 {
        1
    } else if columns > MAX_COLUMNS {
        MAX_COLUMNS
    } else {
        columns
    }
}

impl BuilderModel {
    /// The builder after a list was made for its next node, of which no more are
    /// shown than `limit`.
    pub open spec fn listing<Made: View, E: Entry<Made>>(
        self,
        entries: Seq<E>,
        collection: &'static str,
        limit: usize,
    ) -> BuilderModel {
        self.numbered().named_all(
            names_of::<Made, E>(prose::at_most(entries, limit as int)),
        ).limited(self.fresh_id(), collection, entries.len() as int, limit)
    }

    /// The builder after a list was made for its next node.
    pub open spec fn listing_all<Made: View, E: Entry<Made>>(
        self,
        entries: Seq<E>,
    ) -> BuilderModel {
        self.numbered().named_all(names_of::<Made, E>(entries))
    }
}

/// The controls of a list of which no more are shown than `limit`.
pub open spec fn shown<Made: View, E: Entry<Made>>(entries: Seq<E>, limit: usize) -> Seq<Made::V> {
    controls_of::<Made, E>(prose::at_most(entries, limit as int))
}

impl ScreenBuilder {
    #[must_use]
    pub fn rows(self, entries: Vec<(&str, &str, &str, RowLead)>) -> (builder: ScreenBuilder)
        ensures
            builder@ == self@.listing::<Row, (
                &str,
                &str,
                &str,
                RowLead,
            )>(entries@, "rows", MAX_ROWS).with(
                NodeModel::Rows {
                    id: self@.fresh_id(),
                    rows: shown::<Row, (&str, &str, &str, RowLead)>(entries@, MAX_ROWS),
                },
            ),
            ({
                &&& builder@.screen().nodes.last() matches NodeModel::Rows { id, rows }
                &&& rows.len() == (if entries@.len() <= MAX_ROWS {
                    entries@.len()
                } else {
                    MAX_ROWS as nat
                })
                &&& forall|i: int| 0 <= i < rows.len() ==> {
                    &&& (#[trigger] rows[i]).action == name::action_of(entries@[i].0@)
                    &&& rows[i].title == entries@[i].1@
                    &&& rows[i].summary == entries@[i].2@
                    &&& rows[i].lead == entries@[i].3
                }
            }),
    {
        let mut builder = self;
        let id = builder.next_id();
        let made = builder.make_all::<Row, (&str, &str, &str, RowLead)>(&entries, MAX_ROWS);
        builder.warn_limit(id, "rows", entries.len(), MAX_ROWS);
        builder.add_node(Node::Rows { id, rows: made });
        builder
    }

    /// Rows with a word at their far end. A row with nothing to say there says
    /// nothing.
    #[must_use]
    pub fn rows_with_trailing(
        self,
        entries: Vec<(&str, &str, &str, RowLead, &str)>,
    ) -> (builder: ScreenBuilder)
        ensures
            builder@ == self@.listing::<Row, (
                &str,
                &str,
                &str,
                RowLead,
                &str,
            )>(entries@, "rows", MAX_ROWS).with(
                NodeModel::Rows {
                    id: self@.fresh_id(),
                    rows: shown::<Row, (&str, &str, &str, RowLead, &str)>(entries@, MAX_ROWS),
                },
            ),
            ({
                &&& builder@.screen().nodes.last() matches NodeModel::Rows { id, rows }
                &&& rows.len() == (if entries@.len() <= MAX_ROWS {
                    entries@.len()
                } else {
                    MAX_ROWS as nat
                })
                &&& forall|i: int| 0 <= i < rows.len() ==> {
                    &&& (#[trigger] rows[i]).action == name::action_of(entries@[i].0@)
                    &&& rows[i].title == entries@[i].1@
                    &&& rows[i].summary == entries@[i].2@
                    &&& rows[i].lead == entries@[i].3
                    &&& rows[i].trailing == (if entries@[i].4@.len() > 0 {
                        Some(entries@[i].4@)
                    } else {
                        None
                    })
                }
            }),
    {
        let mut builder = self;
        let id = builder.next_id();
        let made = builder.make_all::<Row, (&str, &str, &str, RowLead, &str)>(&entries, MAX_ROWS);
        builder.warn_limit(id, "rows", entries.len(), MAX_ROWS);
        builder.add_node(Node::Rows { id, rows: made });
        builder
    }

    /// Rows that are struck off or not.
    #[must_use]
    pub fn checklist(self, entries: Vec<(&str, &str, &str, bool)>) -> (builder: ScreenBuilder)
        ensures
            builder@ == self@.listing::<Row, (
                &str,
                &str,
                &str,
                bool,
            )>(entries@, "rows", MAX_ROWS).with(
                NodeModel::Rows {
                    id: self@.fresh_id(),
                    rows: shown::<Row, (&str, &str, &str, bool)>(entries@, MAX_ROWS),
                },
            ),
            ({
                &&& builder@.screen().nodes.last() matches NodeModel::Rows { id, rows }
                &&& rows.len() == (if entries@.len() <= MAX_ROWS {
                    entries@.len()
                } else {
                    MAX_ROWS as nat
                })
                &&& forall|i: int| 0 <= i < rows.len() ==> {
                    &&& (#[trigger] rows[i]).action == name::action_of(entries@[i].0@)
                    &&& rows[i].title == entries@[i].1@
                    &&& rows[i].summary == entries@[i].2@
                    &&& rows[i].state is Done <==> entries@[i].3
                }
            }),
    {
        let mut builder = self;
        let id = builder.next_id();
        let made = builder.make_all::<Row, (&str, &str, &str, bool)>(&entries, MAX_ROWS);
        builder.warn_limit(id, "rows", entries.len(), MAX_ROWS);
        builder.add_node(Node::Rows { id, rows: made });
        builder
    }

    #[must_use]
    pub fn grid(
        self,
        columns: u8,
        square: bool,
        entries: Vec<(&str, &str)>,
    ) -> (builder: ScreenBuilder)
        ensures
            builder@ == self@.listing::<Cell, (&str, &str)>(entries@, "grid cells", MAX_CELLS).with(
                NodeModel::Grid {
                    id: self@.fresh_id(),
                    columns: columns_shown(columns),
                    square,
                    cells: shown::<Cell, (&str, &str)>(entries@, MAX_CELLS),
                },
            ),
            ({
                &&& builder@.screen().nodes.last() matches NodeModel::Grid {
                    id,
                    columns: across,
                    square: sides,
                    cells,
                }
                &&& cells.len() == (if entries@.len() <= MAX_CELLS {
                    entries@.len()
                } else {
                    MAX_CELLS as nat
                })
                &&& sides == square
                &&& forall|i: int| 0 <= i < cells.len() ==> {
                    &&& (#[trigger] cells[i]).action == name::action_of(entries@[i].0@)
                    &&& cells[i].label == entries@[i].1@
                    &&& cells[i].glyph is None
                }
            }),
    {
        let mut builder = self;
        let id = builder.next_id();
        let made = builder.make_all::<Cell, (&str, &str)>(&entries, MAX_CELLS);
        builder.warn_limit(id, "grid cells", entries.len(), MAX_CELLS);
        builder.add_node(Node::Grid { id, columns: clamp_columns(columns), square, cells: made });
        builder
    }

    /// A grid of square cells, some of which are marked.
    #[must_use]
    pub fn board(
        self,
        columns: u8,
        entries: Vec<(&str, &str, Option<Glyph>)>,
    ) -> (builder: ScreenBuilder)
        ensures
            builder@ == self@.listing::<Cell, (
                &str,
                &str,
                Option<Glyph>,
            )>(entries@, "grid cells", MAX_CELLS).with(
                NodeModel::Grid {
                    id: self@.fresh_id(),
                    columns: columns_shown(columns),
                    square: true,
                    cells: shown::<Cell, (&str, &str, Option<Glyph>)>(entries@, MAX_CELLS),
                },
            ),
            ({
                &&& builder@.screen().nodes.last() matches NodeModel::Grid {
                    id,
                    columns: across,
                    square: sides,
                    cells,
                }
                &&& cells.len() == (if entries@.len() <= MAX_CELLS {
                    entries@.len()
                } else {
                    MAX_CELLS as nat
                })
                &&& sides
                &&& forall|i: int| 0 <= i < cells.len() ==> {
                    &&& (#[trigger] cells[i]).action == name::action_of(entries@[i].0@)
                    &&& cells[i].label == entries@[i].1@
                    &&& cells[i].glyph == entries@[i].2
                }
            }),
    {
        let mut builder = self;
        let id = builder.next_id();
        let made = builder.make_all::<Cell, (&str, &str, Option<Glyph>)>(&entries, MAX_CELLS);
        builder.warn_limit(id, "grid cells", entries.len(), MAX_CELLS);
        builder.add_node(
            Node::Grid { id, columns: clamp_columns(columns), square: true, cells: made },
        );
        builder
    }

    /// A grid of marked controls.
    #[must_use]
    pub fn controls(
        self,
        columns: u8,
        entries: Vec<(&str, &str, Glyph)>,
    ) -> (builder: ScreenBuilder)
        ensures
            builder@ == self@.listing::<Cell, (
                &str,
                &str,
                Glyph,
            )>(entries@, "grid cells", MAX_CELLS).with(
                NodeModel::Grid {
                    id: self@.fresh_id(),
                    columns: columns_shown(columns),
                    square: false,
                    cells: shown::<Cell, (&str, &str, Glyph)>(entries@, MAX_CELLS),
                },
            ),
            ({
                &&& builder@.screen().nodes.last() matches NodeModel::Grid {
                    id,
                    columns: across,
                    square: sides,
                    cells,
                }
                &&& cells.len() == (if entries@.len() <= MAX_CELLS {
                    entries@.len()
                } else {
                    MAX_CELLS as nat
                })
                &&& !sides
                &&& forall|i: int| 0 <= i < cells.len() ==> {
                    &&& (#[trigger] cells[i]).action == name::action_of(entries@[i].0@)
                    &&& cells[i].label == entries@[i].1@
                    &&& cells[i].glyph == Some(entries@[i].2)
                }
            }),
    {
        let mut builder = self;
        let id = builder.next_id();
        let made = builder.make_all::<Cell, (&str, &str, Glyph)>(&entries, MAX_CELLS);
        builder.warn_limit(id, "grid cells", entries.len(), MAX_CELLS);
        builder.add_node(
            Node::Grid { id, columns: clamp_columns(columns), square: false, cells: made },
        );
        builder
    }

    /// A question with answers to choose from.
    #[must_use]
    pub fn choice(self, prompt: &str, entries: Vec<(&str, &str)>) -> (builder: ScreenBuilder)
        ensures
            builder@ == self@.listing::<BarAction, (
                &str,
                &str,
            )>(entries@, "choice options", MAX_CHOICE_OPTIONS).with(
                NodeModel::Choice {
                    id: self@.fresh_id(),
                    prompt: prompt@,
                    options: shown::<BarAction, (&str, &str)>(entries@, MAX_CHOICE_OPTIONS),
                    selected: None,
                    freeform: None,
                },
            ),
            ({
                &&& builder@.screen().nodes.last() matches NodeModel::Choice {
                    id,
                    prompt: asked,
                    options,
                    selected,
                    freeform,
                }
                &&& options.len() == (if entries@.len() <= MAX_CHOICE_OPTIONS {
                    entries@.len()
                } else {
                    MAX_CHOICE_OPTIONS as nat
                })
                &&& asked == prompt@
                &&& forall|i: int| 0 <= i < options.len() ==> {
                    &&& (#[trigger] options[i]).action == name::action_of(entries@[i].0@)
                    &&& options[i].label == entries@[i].1@
                    &&& options[i].glyph is None
                }
            }),
    {
        let mut builder = self;
        let id = builder.next_id();
        let made = builder.make_all::<BarAction, (&str, &str)>(&entries, MAX_CHOICE_OPTIONS);
        builder.warn_limit(id, "choice options", entries.len(), MAX_CHOICE_OPTIONS);
        builder.add_node(
            Node::Choice {
                id,
                prompt: prompt.to_owned(),
                options: made,
                selected: None,
                freeform: None,
            },
        );
        builder
    }

    #[must_use]
    pub fn tiles(self, entries: Vec<(&str, &str, Glyph)>) -> (builder: ScreenBuilder)
        ensures
            builder@ == self@.listing_all::<Tile, (&str, &str, Glyph)>(entries@).with(
                NodeModel::TileGrid {
                    id: self@.fresh_id(),
                    tiles: controls_of::<Tile, (&str, &str, Glyph)>(entries@),
                    shape: TileShape::Square,
                },
            ),
            ({
                &&& builder@.screen().nodes.last() matches NodeModel::TileGrid { id, tiles, shape }
                &&& tiles.len() == entries@.len()
                &&& forall|i: int| 0 <= i < tiles.len() ==> {
                    &&& (#[trigger] tiles[i]).action == name::action_of(entries@[i].0@)
                    &&& tiles[i].label == entries@[i].1@
                    &&& tiles[i].glyph == entries@[i].2
                }
            }),
    {
        let mut builder = self;
        let id = builder.next_id();
        let made = builder.make_all::<Tile, (&str, &str, Glyph)>(&entries, entries.len());
        builder.add_node(Node::TileGrid { id, tiles: made, shape: TileShape::Square });
        builder
    }

    /// The tiles of a launcher.
    #[must_use]
    pub fn apps(self, entries: Vec<AppMetadata>) -> (builder: ScreenBuilder)
        ensures
            builder@ == self@.listing_all::<Tile, AppMetadata>(entries@).with(
                NodeModel::TileGrid {
                    id: self@.fresh_id(),
                    tiles: controls_of::<Tile, AppMetadata>(entries@),
                    shape: TileShape::Square,
                },
            ),
            ({
                &&& builder@.screen().nodes.last() matches NodeModel::TileGrid { id, tiles, shape }
                &&& tiles.len() == entries@.len()
                &&& forall|i: int| 0 <= i < tiles.len() ==> {
                    &&& (#[trigger] tiles[i]).action == name::action_of(entries@[i].id@)
                    &&& tiles[i].label == entries@[i].display_name@
                }
            }),
    {
        let mut builder = self;
        let id = builder.next_id();
        let made = builder.make_all::<Tile, AppMetadata>(&entries, entries.len());
        builder.add_node(Node::TileGrid { id, tiles: made, shape: TileShape::Square });
        builder
    }

    /// Tiles with pictures, where there are pictures.
    #[must_use]
    pub fn picture_tiles(
        self,
        shape: TileShape,
        entries: Vec<(&str, &str, Glyph, Option<TilePicture>)>,
    ) -> (builder: ScreenBuilder)
        ensures
            builder@ == self@.listing_all::<Tile, (
                &str,
                &str,
                Glyph,
                Option<TilePicture>,
            )>(entries@).with(
                NodeModel::TileGrid {
                    id: self@.fresh_id(),
                    tiles: controls_of::<Tile, (&str, &str, Glyph, Option<TilePicture>)>(entries@),
                    shape,
                },
            ),
            ({
                &&& builder@.screen().nodes.last() matches NodeModel::TileGrid {
                    id,
                    tiles,
                    shape: drawn,
                }
                &&& tiles.len() == entries@.len()
                &&& drawn == shape
                &&& forall|i: int| 0 <= i < tiles.len() ==> {
                    &&& (#[trigger] tiles[i]).action == name::action_of(entries@[i].0@)
                    &&& tiles[i].label == entries@[i].1@
                    &&& tiles[i].glyph == entries@[i].2
                    &&& tiles[i].picture == entries@[i].3
                }
            }),
    {
        let mut builder = self;
        let id = builder.next_id();
        let made = builder.make_all::<Tile, (
            &str,
            &str,
            Glyph,
            Option<TilePicture>,
        )>(&entries, entries.len());
        builder.add_node(Node::TileGrid { id, tiles: made, shape });
        builder
    }

    #[must_use]
    pub fn chips(self, entries: Vec<(&str, &str, bool)>) -> (builder: ScreenBuilder)
        ensures
            builder@ == self@.listing_all::<Chip, (&str, &str, bool)>(entries@).with(
                NodeModel::Chips {
                    id: self@.fresh_id(),
                    chips: controls_of::<Chip, (&str, &str, bool)>(entries@),
                },
            ),
            ({
                &&& builder@.screen().nodes.last() matches NodeModel::Chips { id, chips }
                &&& chips.len() == entries@.len()
                &&& forall|i: int| 0 <= i < chips.len() ==> {
                    &&& (#[trigger] chips[i]).action == name::action_of(entries@[i].0@)
                    &&& chips[i].label == entries@[i].1@
                    &&& chips[i].selected == entries@[i].2
                }
            }),
    {
        let mut builder = self;
        let id = builder.next_id();
        let made = builder.make_all::<Chip, (&str, &str, bool)>(&entries, entries.len());
        builder.add_node(Node::Chips { id, chips: made });
        builder
    }

    #[must_use]
    pub fn tabs(self, selected: usize, entries: Vec<(&str, &str)>) -> (builder: ScreenBuilder)
        ensures
            builder@ == self@.listing_all::<Chip, (&str, &str)>(entries@).with(
                NodeModel::Tabs {
                    id: self@.fresh_id(),
                    tabs: controls_of::<Chip, (&str, &str)>(entries@),
                    selected,
                },
            ),
            ({
                &&& builder@.screen().nodes.last() matches NodeModel::Tabs {
                    id,
                    tabs,
                    selected: chosen,
                }
                &&& tabs.len() == entries@.len()
                &&& chosen == selected
                &&& forall|i: int| 0 <= i < tabs.len() ==> {
                    &&& (#[trigger] tabs[i]).action == name::action_of(entries@[i].0@)
                    &&& tabs[i].label == entries@[i].1@
                }
            }),
    {
        let mut builder = self;
        let id = builder.next_id();
        let made = builder.make_all::<Chip, (&str, &str)>(&entries, entries.len());
        builder.add_node(Node::Tabs { id, tabs: made, selected });
        builder
    }
}

} // verus!
