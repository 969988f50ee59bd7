//! Paragraphs with links, pictures, progress and what is said about the last
//! node.

use vstd::prelude::*;

use crate::builder::{BuilderModel, ScreenBuilder};
use crate::glyph::Glyph;
use crate::item;
use crate::limits::{MAX_INLINE_FORMULAE, MAX_ROWS, MAX_TERMINAL_ROWS, MAX_TEXT_LINKS};
use crate::name;
use crate::prose;
use crate::prose::names_run;
use crate::ui::{
    BarAction, BarActionModel, Caret, ControlState, Freeform, FreeformModel, InlineFormula, Node,
    NodeModel, ParagraphPresentation, Percent, RichTextSpan, Row, RowLead, RowModel, RowState,
    TextLink, TextSelection, Tile, TileModel, TilePicture, TileShape, TileState, TransferFailure,
    TransferFailureModel,
};

verus! {

// ---------------------------------------------------------------------------
// Links.

/// The entries of a list of links that name a run of a text.
pub open spec fn landed<'a>(entries: Seq<(&'a str, usize, usize)>, text: Seq<char>) -> Seq<
    (&'a str, usize, usize),
> {
    entries.filter(
        |entry: (&'a str, usize, usize)| prose::is_run(text, entry.1 as int, entry.2 as int),
    )
}

/// The links of a text, of which no more are kept than may be.
pub open spec fn links_of(entries: Seq<(&str, usize, usize)>, text: Seq<char>) -> Seq<TextLink> {
    landed(prose::at_most(entries, MAX_TEXT_LINKS as int), text).map_values(
        |entry: (&str, usize, usize)|
            TextLink { action: name::action_of(entry.0@), start: entry.1, end: entry.2 },
    )
}

/// The names of the links of a text.
pub open spec fn link_names(entries: Seq<(&str, usize, usize)>, text: Seq<char>) -> Seq<Seq<char>> {
    landed(prose::at_most(entries, MAX_TEXT_LINKS as int), text).map_values(
        |entry: (&str, usize, usize)| entry.0@,
    )
}

impl ScreenBuilder {
    /// Makes the links of a text. One that names no run of it is left out.
    fn make_links(&mut self, text: &str, entries: &Vec<(&str, usize, usize)>) -> (links: Vec<
        TextLink,
    >)
        ensures
            links@ == links_of(entries@, text@),
            final(self)@ == old(self)@.named_all(link_names(entries@, text@)),
    {
        let count: usize = if entries.len() <= MAX_TEXT_LINKS {
            entries.len()
        } else {
            MAX_TEXT_LINKS
        };
        let ghost offered = prose::at_most(entries@, MAX_TEXT_LINKS as int);
        let ghost lands = |entry: (&str, usize, usize)|
            prose::is_run(text@, entry.1 as int, entry.2 as int);
        let ghost link = |entry: (&str, usize, usize)|
            TextLink { action: name::action_of(entry.0@), start: entry.1, end: entry.2 };
        let ghost called = |entry: (&str, usize, usize)| entry.0@;
        let mut links: Vec<TextLink> = Vec::new();
        let mut index: usize = 0;
        proof {
            reveal(Seq::filter);
            assert(offered.take(0).filter(lands) =~= Seq::empty());
            assert(links@ =~= offered.take(0).filter(lands).map_values(link));
            assert(offered.take(0).filter(lands).map_values(called) =~= Seq::empty());
        }
        while index < count
            invariant
                index <= count,
                count == offered.len(),
                count <= entries@.len(),
                offered == prose::at_most(entries@, MAX_TEXT_LINKS as int),
                lands == (|entry: (&str, usize, usize)|
                    prose::is_run(text@, entry.1 as int, entry.2 as int)),
                link == (|entry: (&str, usize, usize)|
                    TextLink { action: name::action_of(entry.0@), start: entry.1, end: entry.2 }),
                called == (|entry: (&str, usize, usize)| entry.0@),
                links@ == offered.take(index as int).filter(lands).map_values(link),
                self@ == old(self)@.named_all(
                    offered.take(index as int).filter(lands).map_values(called),
                ),
            decreases count - index,
        {
            let ghost before = offered.take(index as int).filter(lands);
            let ghost now = offered.take(index + 1).filter(lands);
            let name = entries[index].0;
            let start: usize = entries[index].1;
            let end: usize = entries[index].2;
            proof {
                reveal(Seq::filter);
                assert(offered.take(index + 1).drop_last() =~= offered.take(index as int));
                assert(offered.take(index + 1).last() == entries@[index as int]);
            }
            if names_run(text, start, end) {
                assert(now == before.push(entries@[index as int]));
                assert(now.map_values(link) =~= before.map_values(link).push(
                    link(entries@[index as int]),
                ));
                assert(now.map_values(called) =~= before.map_values(called).push(name@));
                assert(now.map_values(called).drop_last() =~= before.map_values(called));
                let action = self.register(name);
                links.push(TextLink { action, start, end });
            } else {
                assert(now == before);
            }
            index = index + 1;
        }
        assert(offered.take(count as int) =~= offered);
        links
    }

    /// A paragraph with links in it.
    #[must_use]
    pub fn text_linking(self, text: &str, links: Vec<(&str, usize, usize)>) -> (builder:
        ScreenBuilder)
        ensures
            builder@ == self@.numbered().named_all(link_names(links@, text@)).limited(
                self@.fresh_id(),
                "text links",
                links@.len() as int,
                MAX_TEXT_LINKS,
            ).with(
                NodeModel::Text {
                    id: self@.fresh_id(),
                    text: text@,
                    links: links_of(links@, text@),
                },
            ),
    {
        let mut builder = self;
        let id = builder.next_id();
        let made = builder.make_links(text, &links);
        builder.warn_limit(id, "text links", links.len(), MAX_TEXT_LINKS);
        builder.add_node(Node::Text { id, text: text.to_owned(), links: made });
        builder
    }

    /// A set paragraph with links in it.
    #[must_use]
    pub fn rich_text_linking(
        self,
        text: &str,
        spans: Vec<RichTextSpan>,
        presentation: ParagraphPresentation,
        links: Vec<(&str, usize, usize)>,
    ) -> (builder: ScreenBuilder)
        ensures
            builder@ == self@.numbered().named_all(link_names(links@, text@)).with(
                NodeModel::RichText {
                    id: self@.fresh_id(),
                    text: text@,
                    spans: spans@,
                    links: links_of(links@, text@),
                    presentation,
                    selection: None,
                    formulae: Seq::empty(),
                },
            ),
    {
        let mut builder = self;
        let id = builder.next_id();
        let made = builder.make_links(text, &links);
        builder.add_node(
            Node::RichText {
                id,
                text: text.to_owned(),
                spans,
                links: made,
                presentation,
                selection: None,
                formulae: Vec::new(),
            },
        );
        builder
    }

    /// A set paragraph with links in it, of which words can be held.
    #[must_use]
    pub fn selectable_rich_text_linking(
        self,
        text: &str,
        spans: Vec<RichTextSpan>,
        presentation: ParagraphPresentation,
        context: u64,
        offset: u32,
        links: Vec<(&str, usize, usize)>,
    ) -> (builder: ScreenBuilder)
        ensures
            builder@ == self@.numbered().named_all(link_names(links@, text@)).with(
                NodeModel::RichText {
                    id: self@.fresh_id(),
                    text: text@,
                    spans: spans@,
                    links: links_of(links@, text@),
                    presentation,
                    selection: Some(TextSelection { context, offset }),
                    formulae: Seq::empty(),
                },
            ),
    {
        let mut builder = self;
        let id = builder.next_id();
        let made = builder.make_links(text, &links);
        builder.add_node(
            Node::RichText {
                id,
                text: text.to_owned(),
                spans,
                links: made,
                presentation,
                selection: Some(TextSelection { context, offset }),
                formulae: Vec::new(),
            },
        );
        builder
    }
}

// ---------------------------------------------------------------------------
// Formulas.

/// The formulas of a paragraph after more were offered, taken in order: each
/// names a run of the text that begins where none before it reaches.
pub open spec fn set_in_line(
    kept: Seq<InlineFormula>,
    offered: Seq<InlineFormula>,
    text: Seq<char>,
) -> Seq<InlineFormula>
    decreases offered.len(),
{
    if offered.len() == 0 {
        kept
    } else {
        let formula = offered[0];
        let fits = prose::is_run(text, formula.start as int, formula.end as int) && (kept.len() == 0
            || kept.last().end <= formula.start);
        set_in_line(
            if fits {
                kept.push(formula)
            } else {
                kept
            },
            offered.drop_first(),
            text,
        )
    }
}

fn add_formulae(kept: &mut Vec<InlineFormula>, offered: &Vec<InlineFormula>, text: &str)
    ensures
        final(kept)@ == set_in_line(
            old(kept)@,
            prose::at_most(offered@, MAX_INLINE_FORMULAE as int),
            text@,
        ),
{
    let count: usize = if offered.len() <= MAX_INLINE_FORMULAE {
        offered.len()
    } else {
        MAX_INLINE_FORMULAE
    };
    let ghost list = prose::at_most(offered@, MAX_INLINE_FORMULAE as int);
    let mut index: usize = 0;
    assert(list.skip(0) =~= list);
    while index < count
        invariant
            index <= count,
            count == list.len(),
            count <= offered@.len(),
            list == prose::at_most(offered@, MAX_INLINE_FORMULAE as int),
            set_in_line(kept@, list.skip(index as int), text@) == set_in_line(
                old(kept)@,
                list,
                text@,
            ),
        decreases count - index,
    {
        let formula = offered[index];
        assert(list.skip(index as int)[0] == formula);
        assert(list.skip(index as int).drop_first() =~= list.skip(index + 1));
        let clear = kept.len() == 0 || kept[kept.len() - 1].end <= formula.start;
        if names_run(text, formula.start, formula.end) && clear {
            kept.push(formula);
        }
        index = index + 1;
    }
}

// ---------------------------------------------------------------------------
// Runs of texts.

/// The texts of a list, of which no more are kept than `limit`.
fn owned(texts: &Vec<&str>, limit: usize) -> (copies: Vec<String>)
    ensures
        item::models(copies@) == prose::at_most(item::models(texts@), limit as int),
{
    let count: usize = if texts.len() <= limit {
        texts.len()
    } else {
        limit
    };
    let mut copies: Vec<String> = Vec::new();
    let mut index: usize = 0;
    while index < count
        invariant
            index <= count <= texts@.len(),
            index == copies@.len(),
            forall|i: int| 0 <= i < index ==> (#[trigger] copies@[i])@ == texts@[i]@,
        decreases count - index,
    {
        copies.push(texts[index].to_owned());
        index = index + 1;
    }
    assert(item::models(copies@) =~= prose::at_most(item::models(texts@), limit as int));
    copies
}

/// The pairs of a list.
pub(crate) fn owned_pairs(pairs: &Vec<(&str, &str)>) -> (copies: Vec<(String, String)>)
    ensures
        item::models(copies@) == item::models(pairs@),
{
    let mut copies: Vec<(String, String)> = Vec::new();
    let mut index: usize = 0;
    while index < pairs.len()
        invariant
            index <= pairs@.len(),
            index == copies@.len(),
            forall|i: int| 0 <= i < index ==> (#[trigger] copies@[i])@ == pairs@[i]@,
        decreases pairs@.len() - index,
    {
        copies.push((pairs[index].0.to_owned(), pairs[index].1.to_owned()));
        index = index + 1;
    }
    assert(item::models(copies@) =~= item::models(pairs@));
    copies
}

// ---------------------------------------------------------------------------
// Numbers.

/// Ten times a length, or the longest the wire can say.
pub open spec fn tenfold(value: u16) -> u16 {
    if value * 10 > u16::MAX {
        u16::MAX
    } else {
        (value * 10) as u16
    }
}

pub(crate) fn times_ten(value: u16) -> (tenths: u16)
    ensures
        tenths == tenfold(value),
{
    if value > 6553 {
        u16::MAX
    } else {
        value * 10
    }
}

/// How much of a transfer is done, in hundredths. More than all of it is all of
/// it, and a transfer of nothing is not a share of anything.
pub open spec fn share_done(received: u64, total: Option<u64>) -> Option<Percent> {
    match total {
        None => None,
        Some(total) => if total == 0 {
            None
        } else {
            let hundredfold = if received * 100 > u64::MAX {
                u64::MAX as int
            } else {
                received * 100
            };
            let percent = hundredfold / (total as int);
            Some(
                Percent {
                    value: if percent > 100 {
                        100
                    } else {
                        percent as u8
                    },
                },
            )
        },
    }
}

fn percent_done(received: u64, total: Option<u64>) -> (percent: Option<Percent>)
    ensures
        percent == share_done(received, total),
{
    match total {
        None => None,
        Some(total) => {
            if total == 0 {
                return None;
            }
            let hundredfold: u64 = if received > u64::MAX / 100 {
                u64::MAX
            } else {
                received * 100
            };
            let percent: u64 = hundredfold / total;
            let value: u8 = if percent > 100 {
                100
            } else {
                percent as u8
            };
            Some(Percent::new(value))
        },
    }
}

/// Whether a control answers.
pub open spec fn answers(enabled: bool) -> ControlState {
    if enabled {
        ControlState::Enabled
    } else {
        ControlState::Disabled
    }
}

fn state_of(enabled: bool) -> (state: ControlState)
    ensures
        state == answers(enabled),
{
    if enabled {
        ControlState::Enabled
    } else {
        ControlState::Disabled
    }
}

// ---------------------------------------------------------------------------
// Rows with menus, and tiles made to order.

/// The builder after rows were named, with their menus where they have any.
pub open spec fn named_with_menus(
    builder: BuilderModel,
    rows: Seq<(&str, &str, &str, RowLead, &str)>,
) -> BuilderModel
    decreases rows.len(),
{
    if rows.len() == 0 {
        builder
    } else {
        let named = named_with_menus(builder, rows.drop_last()).named(rows.last().0@);
        if rows.last().4@.len() == 0 {
            named
        } else {
            named.named(rows.last().4@)
        }
    }
}

/// A row with a menu, where it has one.
pub open spec fn row_with_menu(row: (&str, &str, &str, RowLead, &str)) -> RowModel {
    RowModel {
        action: name::action_of(row.0@),
        title: row.1@,
        summary: row.2@,
        lead: row.3,
        state: RowState::Open,
        trailing: None,
        menu: if row.4@.len() == 0 {
            None
        } else {
            Some(name::action_of(row.4@))
        },
    }
}

/// A tile with nothing but a mark and a label.
pub open spec fn plain_tile(name: Seq<char>, label: Seq<char>, glyph: Glyph) -> TileModel {
    TileModel {
        action: name::action_of(name),
        label,
        glyph,
        picture: None,
        state: TileState::Normal,
        badge: Seq::empty(),
        subtitle: Seq::empty(),
    }
}

/// Whether a tile is what somebody made of a plain one.
pub open spec fn made_to_order<F: FnOnce(Tile) -> Tile>(
    entry: (&str, &str, Glyph, F),
    tile: Tile,
) -> bool {
    exists|plain: Tile|
        plain@ == plain_tile(entry.0@, entry.1@, entry.2) && #[trigger] call_ensures(
            entry.3,
            (plain,),
            tile,
        )
}

impl ScreenBuilder {
    /// Rows with a menu at their far end, where a row names one.
    #[must_use]
    pub fn rows_with_menu(self, rows: Vec<(&str, &str, &str, RowLead, &str)>) -> (builder:
        ScreenBuilder)
        ensures
            builder@ == named_with_menus(
                self@.numbered(),
                prose::at_most(rows@, MAX_ROWS as int),
            ).limited(self@.fresh_id(), "rows", rows@.len() as int, MAX_ROWS).with(
                NodeModel::Rows {
                    id: self@.fresh_id(),
                    rows: prose::at_most(rows@, MAX_ROWS as int).map_values(
                        |row: (&str, &str, &str, RowLead, &str)| row_with_menu(row),
                    ),
                },
            ),
    {
        let mut builder = self;
        let id = builder.next_id();
        let count: usize = if rows.len() <= MAX_ROWS {
            rows.len()
        } else {
            MAX_ROWS
        };
        let ghost shown = prose::at_most(rows@, MAX_ROWS as int);
        let mut made: Vec<Row> = Vec::new();
        let mut index: usize = 0;
        while index < count
            invariant
                index <= count,
                count == shown.len(),
                count <= rows@.len(),
                shown == prose::at_most(rows@, MAX_ROWS as int),
                index == made@.len(),
                forall|i: int| 0 <= i < index ==> (#[trigger] made@[i])@ == row_with_menu(shown[i]),
                builder@ == named_with_menus(self@.numbered(), shown.take(index as int)),
            decreases count - index,
        {
            assert(shown[index as int] == rows@[index as int]);
            assert(shown.take(index + 1).drop_last() =~= shown.take(index as int));
            let menu = rows[index].4;
            let action = builder.register(rows[index].0);
            let row = Row::new(action, rows[index].1, rows[index].2, rows[index].3);
            if menu.unicode_len() == 0 {
                made.push(row);
            } else {
                let opens = builder.register(menu);
                made.push(row.with_menu(opens));
            }
            index = index + 1;
        }
        assert(shown.take(count as int) =~= shown);
        assert(item::models(made@) =~= shown.map_values(
            |row: (&str, &str, &str, RowLead, &str)| row_with_menu(row),
        ));
        builder.warn_limit(id, "rows", rows.len(), MAX_ROWS);
        builder.add_node(Node::Rows { id, rows: made });
        builder
    }

    /// Tiles, each of which somebody makes something of.
    #[must_use]
    pub fn tile_grid<F: FnOnce(Tile) -> Tile>(
        self,
        shape: TileShape,
        tiles: Vec<(&str, &str, Glyph, F)>,
    ) -> (builder: ScreenBuilder)
        requires
            forall|i: int, tile: Tile|
                0 <= i < tiles@.len() ==> #[trigger] call_requires(tiles@[i].3, (tile,)),
        ensures
            exists|made: Seq<Tile>|
                {
                    &&& made.len() == tiles@.len()
                    &&& forall|i: int|
                        0 <= i < made.len() ==> #[trigger] made_to_order(tiles@[i], made[i])
                    &&& builder@ == self@.numbered().named_all(
                        tiles@.map_values(|entry: (&str, &str, Glyph, F)| entry.0@),
                    ).with(
                        NodeModel::TileGrid {
                            id: self@.fresh_id(),
                            tiles: #[trigger] item::models(made),
                            shape,
                        },
                    )
                },
    {
        let mut builder = self;
        let id = builder.next_id();
        let ghost names = tiles@.map_values(|entry: (&str, &str, Glyph, F)| entry.0@);
        let ghost offered = tiles@;
        let mut made: Vec<Tile> = Vec::new();
        assert(names.take(0) =~= Seq::empty());
        for entry in entries: tiles
            invariant
                entries.seq() == offered,
                names == offered.map_values(|entry: (&str, &str, Glyph, F)| entry.0@),
                made@.len() == entries.index(),
                forall|i: int, tile: Tile|
                    0 <= i < offered.len() ==> #[trigger] call_requires(offered[i].3, (tile,)),
                forall|i: int|
                    0 <= i < made@.len() ==> #[trigger] made_to_order(offered[i], made@[i]),
                builder@ == self@.numbered().named_all(names.take(entries.index() as int)),
        {
            let ghost index = entries.index() as int;
            assert(names.take(index + 1).drop_last() =~= names.take(index));
            let (name, label, glyph, configure) = entry;
            assert(offered[index] == entry);
            let action = builder.register(name);
            let plain = Tile::new(action, label, glyph);
            assert(call_requires(offered[index].3, (plain,)));
            let tile = configure(plain);
            assert(made_to_order(offered[index], tile));
            made.push(tile);
        }
        assert(names.take(names.len() as int) =~= names);
        let ghost list = made@;
        builder.add_node(Node::TileGrid { id, tiles: made, shape });
        assert(builder@.nodes.last() == NodeModel::TileGrid {
            id,
            tiles: item::models(list),
            shape,
        });
        builder
    }
}

impl BuilderModel {
    /// The last node there is.
    pub open spec fn last_node(self) -> Option<NodeModel> {
        if self.nodes.len() == 0 {
            None
        } else {
            Some(self.nodes.last())
        }
    }

    /// The builder with labels and values. Nothing is drawn for none.
    pub open spec fn stating(self, entries: Seq<(Seq<char>, Seq<char>)>) -> BuilderModel {
        if entries.len() == 0 {
            self.numbered()
        } else {
            self.numbered().with(NodeModel::Facts { id: self.fresh_id(), entries })
        }
    }

    /// The builder with a picture.
    pub open spec fn picturing(
        self,
        picture: TilePicture,
        max_height_mm: u16,
        framed: bool,
    ) -> BuilderModel {
        self.numbered().with(
            NodeModel::Picture {
                id: self.fresh_id(),
                handle: picture.handle,
                source: picture.source,
                max_height_tenths_mm: tenfold(max_height_mm),
                framed,
            },
        )
    }

    /// What [`ScreenBuilder::field_clear`] makes of a builder.
    pub open spec fn field_clear_model(self, name: Seq<char>) -> BuilderModel {
        match self.last_node() {
            Some(NodeModel::Field { id, action, value, placeholder, clear }) => self.amended(
                NodeModel::Field {
                    id,
                    action,
                    value,
                    placeholder,
                    clear: if value.len() > 0 { Some(name::action_of(name)) } else { clear },
                },
            ),
            _ => self,
        }
    }

    /// What [`ScreenBuilder::stepper_ends`] makes of a builder.
    pub open spec fn stepper_ends_model(
        self,
        less_answers: bool,
        more_answers: bool,
    ) -> BuilderModel {
        match self.last_node() {
            Some(
                NodeModel::Stepper { id, label, less, more, less_state, more_state, fill },
            ) => self.amended(
                NodeModel::Stepper {
                    id,
                    label,
                    less,
                    more,
                    less_state: answers(less_answers),
                    more_state: answers(more_answers),
                    fill,
                },
            ),
            _ => self,
        }
    }

    /// What [`ScreenBuilder::stepper_track`] makes of a builder.
    pub open spec fn stepper_track_model(self, percent: u8) -> BuilderModel {
        match self.last_node() {
            Some(
                NodeModel::Stepper { id, label, less, more, less_state, more_state, fill },
            ) => self.amended(
                NodeModel::Stepper {
                    id,
                    label,
                    less,
                    more,
                    less_state,
                    more_state,
                    fill: Some(Percent::nearest(percent).value),
                },
            ),
            _ => self,
        }
    }

    /// What [`ScreenBuilder::or_type`] makes of a builder.
    pub open spec fn or_type_model(self, name: Seq<char>, hint: Seq<char>) -> BuilderModel {
        match self.last_node() {
            Some(NodeModel::Choice { id, prompt, options, selected, freeform }) => self.amended(
                NodeModel::Choice {
                    id,
                    prompt,
                    options,
                    selected,
                    freeform: Some(
                        FreeformModel { action: name::action_of(name), placeholder: hint },
                    ),
                },
            ),
            _ => self,
        }
    }

    /// What [`ScreenBuilder::chosen`] makes of a builder.
    pub open spec fn chosen_model(self, index: usize) -> BuilderModel {
        match self.last_node() {
            Some(NodeModel::Choice { id, prompt, options, selected, freeform }) => self.amended(
                NodeModel::Choice {
                    id,
                    prompt,
                    options,
                    selected: if index < options.len()
                        && index <= u8::MAX { Some(index as u8) } else { None },
                    freeform,
                },
            ),
            _ => self,
        }
    }

    /// What [`ScreenBuilder::transfer_failed`] makes of a builder.
    pub open spec fn transfer_failed_model(
        self,
        reason: Seq<char>,
        resumable: bool,
    ) -> BuilderModel {
        match self.last_node() {
            Some(
                NodeModel::Activity { id, label, progress, cancel, transferred, failure },
            ) => self.amended(
                NodeModel::Activity {
                    id,
                    label,
                    progress,
                    cancel,
                    transferred,
                    failure: Some(TransferFailureModel { reason, resumable }),
                },
            ),
            _ => self,
        }
    }

    /// What [`ScreenBuilder::cancellable`] makes of a builder.
    pub open spec fn cancellable_model(self, name: Seq<char>, word: Seq<char>) -> BuilderModel {
        match self.last_node() {
            Some(
                NodeModel::Activity { id, label, progress, cancel, transferred, failure },
            ) => self.amended(
                NodeModel::Activity {
                    id,
                    label,
                    progress,
                    cancel: Some(
                        BarActionModel { action: name::action_of(name), label: word, glyph: None },
                    ),
                    transferred,
                    failure,
                },
            ),
            _ => self,
        }
    }

    /// What [`ScreenBuilder::with_formulae`] makes of a builder.
    pub open spec fn with_formulae_model(self, offered: Seq<InlineFormula>) -> BuilderModel {
        match self.last_node() {
            Some(
                NodeModel::RichText { id, text, spans, links, presentation, selection, formulae },
            ) => self.amended(
                NodeModel::RichText {
                    id,
                    text,
                    spans,
                    links,
                    presentation,
                    selection,
                    formulae: set_in_line(
                        formulae,
                        prose::at_most(offered, MAX_INLINE_FORMULAE as int),
                        text,
                    ),
                },
            ),
            _ => self,
        }
    }
}

impl ScreenBuilder {
    #[must_use]
    pub fn paged_list(self, page: u16, items: Vec<&str>) -> (builder: ScreenBuilder)
        ensures
            builder@ == self@.numbered().with(
                NodeModel::PagedList {
                    id: self@.fresh_id(),
                    page,
                    items: item::models(items@),
                },
            ),
    {
        let mut builder = self;
        let id = builder.next_id();
        builder.add_node(Node::PagedList { id, page, items: owned(&items, items.len()) });
        builder
    }

    /// Labels and values. Nothing is drawn for none.
    #[must_use]
    pub fn facts(self, entries: Vec<(&str, &str)>) -> (builder: ScreenBuilder)
        ensures
            builder@ == self@.stating(item::models(entries@)),
    {
        let mut builder = self;
        let id = builder.next_id();
        if entries.len() > 0 {
            builder.add_node(Node::Facts { id, entries: owned_pairs(&entries) });
        }
        builder
    }

    /// The screen of a terminal.
    #[must_use]
    pub fn terminal(self, rows: Vec<&str>, cursor: Option<Caret>) -> (builder: ScreenBuilder)
        ensures
            builder@ == self@.numbered().limited(
                self@.fresh_id(),
                "terminal rows",
                rows@.len() as int,
                MAX_TERMINAL_ROWS,
            ).with(
                NodeModel::Terminal {
                    id: self@.fresh_id(),
                    rows: prose::at_most(item::models(rows@), MAX_TERMINAL_ROWS as int),
                    cursor,
                },
            ),
    {
        let mut builder = self;
        let id = builder.next_id();
        builder.warn_limit(id, "terminal rows", rows.len(), MAX_TERMINAL_ROWS);
        builder.add_node(Node::Terminal { id, rows: owned(&rows, MAX_TERMINAL_ROWS), cursor });
        builder
    }

    #[must_use]
    pub fn activity(self, label: &str, progress: Option<u8>) -> (builder: ScreenBuilder)
        ensures
            builder@ == self@.numbered().with(
                NodeModel::Activity {
                    id: self@.fresh_id(),
                    label: label@,
                    progress: match progress {
                        None => None,
                        Some(value) => Some(Percent::nearest(value)),
                    },
                    cancel: None,
                    transferred: None,
                    failure: None,
                },
            ),
    {
        let mut builder = self;
        let id = builder.next_id();
        builder.add_node(
            Node::Activity {
                id,
                label: label.to_owned(),
                progress: match progress { None => None, Some(value) => Some(Percent::new(value)) },
                cancel: None,
                transferred: None,
                failure: None,
            },
        );
        builder
    }

    /// A transfer, by what has moved. One of which nothing has moved and nothing is
    /// expected reports no amount.
    #[must_use]
    pub fn transfer(
        self,
        label: &str,
        received: u64,
        total: Option<u64>,
    ) -> (builder: ScreenBuilder)
        ensures
            builder@ == self@.numbered().with(
                NodeModel::Activity {
                    id: self@.fresh_id(),
                    label: label@,
                    progress: share_done(received, total),
                    cancel: None,
                    transferred: if received > 0
                        || total is Some { Some((received, total)) } else { None },
                    failure: None,
                },
            ),
    {
        let mut builder = self;
        let id = builder.next_id();
        builder.add_node(
            Node::Activity {
                id,
                label: label.to_owned(),
                progress: percent_done(received, total),
                cancel: None,
                transferred: if received > 0
                    || total.is_some() { Some((received, total)) } else { None },
                failure: None,
            },
        );
        builder
    }

    fn drawn_picture(self, picture: TilePicture, max_height_mm: u16, framed: bool) -> (builder:
        ScreenBuilder)
        ensures
            builder@ == self@.picturing(picture, max_height_mm, framed),
    {
        let mut builder = self;
        let id = builder.next_id();
        builder.add_node(
            Node::Picture {
                id,
                handle: picture.handle,
                source: picture.source,
                max_height_tenths_mm: times_ten(max_height_mm),
                framed,
            },
        );
        builder
    }

    #[must_use]
    pub fn picture(self, picture: TilePicture, max_height_mm: u16) -> (builder: ScreenBuilder)
        ensures
            builder@ == self@.picturing(picture, max_height_mm, true),
    {
        self.drawn_picture(picture, max_height_mm, true)
    }

    #[must_use]
    pub fn unframed_picture(
        self,
        picture: TilePicture,
        max_height_mm: u16,
    ) -> (builder: ScreenBuilder)
        ensures
            builder@ == self@.picturing(picture, max_height_mm, false),
    {
        self.drawn_picture(picture, max_height_mm, false)
    }

    /// A value with a control at either end to move it.
    #[must_use]
    pub fn stepper(self, label: &str, less: &str, less_glyph: Glyph, more: &str, more_glyph: Glyph)
        -> (builder: ScreenBuilder)
        ensures
            builder@ == self@.numbered().named(less@).named(more@).with(
                NodeModel::Stepper {
                    id: self@.fresh_id(),
                    label: label@,
                    less: BarActionModel {
                        action: name::action_of(less@),
                        label: Seq::empty(),
                        glyph: Some(less_glyph),
                    },
                    more: BarActionModel {
                        action: name::action_of(more@),
                        label: Seq::empty(),
                        glyph: Some(more_glyph),
                    },
                    less_state: ControlState::Enabled,
                    more_state: ControlState::Enabled,
                    fill: None,
                },
            ),
    {
        let mut builder = self;
        let id = builder.next_id();
        let lowers = builder.register(less);
        let raises = builder.register(more);
        proof {
            reveal_strlit("");
            assert(""@ =~= Seq::<char>::empty());
        }
        builder.add_node(
            Node::Stepper {
                id,
                label: label.to_owned(),
                less: BarAction::new(lowers, "").with_glyph(less_glyph),
                more: BarAction::new(raises, "").with_glyph(more_glyph),
                less_state: ControlState::Enabled,
                more_state: ControlState::Enabled,
                fill: None,
            },
        );
        builder
    }

    /// Gives the last node, if it is a field with something in it, a way to be
    /// emptied.
    #[must_use]
    pub fn field_clear(self, name: &str) -> (builder: ScreenBuilder)
        ensures
            builder@ == self@.named(name@).field_clear_model(name@),
    {
        let mut builder = self;
        let given = builder.register(name);
        let ghost before = builder@;
        match builder.take_last() {
            None => {},
            Some(Node::Field { id, action, value, placeholder, clear }) => {
                let made_clear = if value.as_str().unicode_len() > 0 { Some(given) } else { clear };
                builder.add_node(
                    Node::Field {
                        id,
                        action,
                        value,
                        placeholder,
                        clear: made_clear,
                    },
                );
            },
            Some(other) => {
                builder.add_node(other);
                assert(builder@.nodes =~= before.nodes);
            },
        }
        builder
    }

    /// Says which ends of the last node, if it is a stepper, still answer.
    #[must_use]
    pub fn stepper_ends(self, less_answers: bool, more_answers: bool) -> (builder: ScreenBuilder)
        ensures
            builder@ == self@.stepper_ends_model(less_answers, more_answers),
    {
        let mut builder = self;
        let ghost before = builder@;
        match builder.take_last() {
            None => {},
            Some(Node::Stepper { id, label, less, more, less_state, more_state, fill }) => {
                let made_less_state = state_of(less_answers);
                let made_more_state = state_of(more_answers);
                builder.add_node(
                    Node::Stepper {
                        id,
                        label,
                        less,
                        more,
                        less_state: made_less_state,
                        more_state: made_more_state,
                        fill,
                    },
                );
            },
            Some(other) => {
                builder.add_node(other);
                assert(builder@.nodes =~= before.nodes);
            },
        }
        builder
    }

    /// Draws how far along the last node is, if it is a stepper.
    #[must_use]
    pub fn stepper_track(self, percent: u8) -> (builder: ScreenBuilder)
        ensures
            builder@ == self@.stepper_track_model(percent),
    {
        let mut builder = self;
        let ghost before = builder@;
        match builder.take_last() {
            None => {},
            Some(Node::Stepper { id, label, less, more, less_state, more_state, fill }) => {
                let made_fill = Some(Percent::new(percent).get());
                builder.add_node(
                    Node::Stepper {
                        id,
                        label,
                        less,
                        more,
                        less_state,
                        more_state,
                        fill: made_fill,
                    },
                );
            },
            Some(other) => {
                builder.add_node(other);
                assert(builder@.nodes =~= before.nodes);
            },
        }
        builder
    }

    /// Lets the last node, if it is a question, be answered in words.
    #[must_use]
    pub fn or_type(self, name: &str, hint: &str) -> (builder: ScreenBuilder)
        ensures
            builder@ == self@.named(name@).or_type_model(name@, hint@),
    {
        let mut builder = self;
        let given = builder.register(name);
        let ghost before = builder@;
        match builder.take_last() {
            None => {},
            Some(Node::Choice { id, prompt, options, selected, freeform }) => {
                let made_freeform = Some(Freeform::new(given, hint));
                builder.add_node(
                    Node::Choice {
                        id,
                        prompt,
                        options,
                        selected,
                        freeform: made_freeform,
                    },
                );
            },
            Some(other) => {
                builder.add_node(other);
                assert(builder@.nodes =~= before.nodes);
            },
        }
        builder
    }

    /// Marks an answer of the last node, if it is a question that has that one.
    #[must_use]
    pub fn chosen(self, index: usize) -> (builder: ScreenBuilder)
        ensures
            builder@ == self@.chosen_model(index),
    {
        let mut builder = self;
        let ghost before = builder@;
        match builder.take_last() {
            None => {},
            Some(Node::Choice { id, prompt, options, selected, freeform }) => {
                let made_selected = if index < options.len()
                    && index <= u8::MAX as usize { Some(index as u8) } else { None };
                builder.add_node(
                    Node::Choice {
                        id,
                        prompt,
                        options,
                        selected: made_selected,
                        freeform,
                    },
                );
            },
            Some(other) => {
                builder.add_node(other);
                assert(builder@.nodes =~= before.nodes);
            },
        }
        builder
    }

    /// Says that the last node, if it is a transfer, failed.
    #[must_use]
    pub fn transfer_failed(self, reason: &str, resumable: bool) -> (builder: ScreenBuilder)
        ensures
            builder@ == self@.transfer_failed_model(reason@, resumable),
    {
        let mut builder = self;
        let ghost before = builder@;
        match builder.take_last() {
            None => {},
            Some(Node::Activity { id, label, progress, cancel, transferred, failure }) => {
                let made_failure = Some(TransferFailure { reason: reason.to_owned(), resumable });
                builder.add_node(
                    Node::Activity {
                        id,
                        label,
                        progress,
                        cancel,
                        transferred,
                        failure: made_failure,
                    },
                );
            },
            Some(other) => {
                builder.add_node(other);
                assert(builder@.nodes =~= before.nodes);
            },
        }
        builder
    }

    /// Gives the last node, if something is under way there, a way to be stopped.
    #[must_use]
    pub fn cancellable(self, name: &str, word: &str) -> (builder: ScreenBuilder)
        ensures
            builder@ == self@.named(name@).cancellable_model(name@, word@),
    {
        let mut builder = self;
        let given = builder.register(name);
        let ghost before = builder@;
        match builder.take_last() {
            None => {},
            Some(Node::Activity { id, label, progress, cancel, transferred, failure }) => {
                let made_cancel = Some(BarAction::new(given, word));
                builder.add_node(
                    Node::Activity {
                        id,
                        label,
                        progress,
                        cancel: made_cancel,
                        transferred,
                        failure,
                    },
                );
            },
            Some(other) => {
                builder.add_node(other);
                assert(builder@.nodes =~= before.nodes);
            },
        }
        builder
    }

    /// Draws formulas over the last node, if it is a set paragraph.
    #[must_use]
    pub fn with_formulae(self, offered: Vec<InlineFormula>) -> (builder: ScreenBuilder)
        ensures
            builder@ == self@.with_formulae_model(offered@),
    {
        let mut builder = self;
        let ghost before = builder@;
        match builder.take_last() {
            None => {},
            Some(Node::RichText { id, text, spans, links, presentation, selection, formulae }) => {
                let mut kept = formulae;
                add_formulae(&mut kept, &offered, text.as_str());
                let made_formulae = kept;
                builder.add_node(
                    Node::RichText {
                        id,
                        text,
                        spans,
                        links,
                        presentation,
                        selection,
                        formulae: made_formulae,
                    },
                );
            },
            Some(other) => {
                builder.add_node(other);
                assert(builder@.nodes =~= before.nodes);
            },
        }
        builder
    }

    /// Offers to try a transfer again, if the last node is one that failed and can
    /// be resumed.
    #[must_use]
    pub fn transfer_retry(self, name: &str, label: &str) -> (builder: ScreenBuilder)
        ensures
            builder@ == if self@.nodes.len() > 0 && crate::builder::resumable(self@.nodes.last()) {
                self@.offering(name@, label@)
            } else {
                self@
            },
    {
        if self.can_resume() {
            self.button(name, label)
        } else {
            self
        }
    }
}

} // verus!
