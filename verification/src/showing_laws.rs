//! What each kind of list puts on a page: one node, with what its entries say,
//! and a word of warning exactly when there were too many of them.

use vstd::prelude::*;

use crate::builder;
use crate::builder::{
    BuilderModel, DialogAction, LayoutIssue, LayoutIssueKind, ScreenBuilder,
};
use crate::builder_parts;
use crate::glyph::Glyph;
use crate::item;
use crate::limits::{MAX_CELLS, MAX_CHOICE_OPTIONS, MAX_COLUMNS, MAX_ROWS};
use crate::list_laws;
use crate::metadata::AppMetadata;
use crate::name;
use crate::ui::{
    BarAction, BottomActionModel, Cell, Chip, NavBarModel, Node, NodeId, NodeModel, Row, RowLead,
    ScreenModel, Tile, TileModel, TilePicture, TileShape,
};

verus! {

/// Whether a page has one node more, with the next number, and is otherwise as it
/// was.
pub open spec fn one_list_more(before: BuilderModel, after: BuilderModel, id: NodeId) -> bool {
    &&& after.nodes.len() == before.nodes.len() + 1
    &&& after.nodes.drop_last() == before.nodes
    &&& after.screen() == (ScreenModel { nodes: after.nodes, ..before.screen() })
    &&& id.0 == before.next_node
    &&& after.next_node == before.next_node + 1
}

/// Whether a list of so many entries is warned about exactly when it is longer
/// than its limit.
pub open spec fn warned_of(
    before: BuilderModel,
    after: BuilderModel,
    id: NodeId,
    collection: &'static str,
    count: nat,
    limit: usize,
) -> bool {
    &&& count <= limit ==> after.warnings == before.warnings
    &&& count > limit ==> {
        &&& after.warnings.len() == before.warnings.len() + 1
        &&& after.warnings.drop_last() == before.warnings
        &&& after.warnings.last().severity is Warning
        &&& after.warnings.last().node == Some(id)
        &&& after.warnings.last().kind == (LayoutIssueKind::CollectionTruncated {
            collection,
            provided: (limit + 1) as usize,
            visible: limit,
        })
    }
}

/// Rows show the title, the summary and the lead of each entry, in order, under the
/// action of its name.
pub proof fn law_rows_are_shown(
    before: ScreenBuilder,
    entries: Vec<(&str, &str, &str, RowLead)>,
    after: ScreenBuilder,
    k: int,
)
    requires
        call_ensures(ScreenBuilder::rows, (before, entries), after),
        before@.next_node < u32::MAX,
    ensures
        ({
            &&& after@.nodes.last() matches NodeModel::Rows { id, rows }
            &&& one_list_more(before@, after@, id)
            &&& entries@.len() <= MAX_ROWS ==> rows.len() == entries@.len()
            &&& entries@.len() > MAX_ROWS ==> rows.len() == MAX_ROWS
            &&& warned_of(before@, after@, id, "rows", entries@.len(), MAX_ROWS)
            &&& forall|i: int| 0 <= i < rows.len() ==> {
                &&& (#[trigger] rows[i]).action == name::action_of(entries@[i].0@)
                &&& rows[i].title == entries@[i].1@
                &&& rows[i].summary == entries@[i].2@
                &&& rows[i].lead == entries@[i].3
                &&& rows[i].state is Open
                &&& rows[i].trailing is None
                &&& rows[i].menu is None
            }
            &&& 0 <= k < entries@.len() && k < MAX_ROWS ==> after@.names.contains(entries@[k].0@)
        }),
{
    list_laws::law_lists_are_announced::<Row, (&str, &str, &str, RowLead)>(
        before@,
        entries@,
        "rows",
        MAX_ROWS,
        k,
    );
    assert(after@.nodes.drop_last() =~= before@.nodes);
}

/// Rows with a word at their far end show the title, the summary, the lead and the
/// word of each entry, in order; a word that says nothing is not shown.
pub proof fn law_rows_with_trailing_are_shown(
    before: ScreenBuilder,
    entries: Vec<(&str, &str, &str, RowLead, &str)>,
    after: ScreenBuilder,
    k: int,
)
    requires
        call_ensures(ScreenBuilder::rows_with_trailing, (before, entries), after),
        before@.next_node < u32::MAX,
    ensures
        ({
            &&& after@.nodes.last() matches NodeModel::Rows { id, rows }
            &&& one_list_more(before@, after@, id)
            &&& entries@.len() <= MAX_ROWS ==> rows.len() == entries@.len()
            &&& entries@.len() > MAX_ROWS ==> rows.len() == MAX_ROWS
            &&& warned_of(before@, after@, id, "rows", entries@.len(), MAX_ROWS)
            &&& forall|i: int| 0 <= i < rows.len() ==> {
                &&& (#[trigger] rows[i]).action == name::action_of(entries@[i].0@)
                &&& rows[i].title == entries@[i].1@
                &&& rows[i].summary == entries@[i].2@
                &&& rows[i].lead == entries@[i].3
                &&& rows[i].state is Open
                &&& rows[i].trailing is Some <==> entries@[i].4@.len() > 0
                &&& rows[i].trailing is Some ==> rows[i].trailing->0 == entries@[i].4@
                &&& rows[i].menu is None
            }
            &&& 0 <= k < entries@.len() && k < MAX_ROWS ==> after@.names.contains(entries@[k].0@)
        }),
{
    list_laws::law_lists_are_announced::<Row, (&str, &str, &str, RowLead, &str)>(
        before@,
        entries@,
        "rows",
        MAX_ROWS,
        k,
    );
    assert(after@.nodes.drop_last() =~= before@.nodes);
}

/// A checklist shows the title and the summary of each entry, in order, and strikes
/// off the ones that are done.
pub proof fn law_checklist_are_shown(
    before: ScreenBuilder,
    entries: Vec<(&str, &str, &str, bool)>,
    after: ScreenBuilder,
    k: int,
)
    requires
        call_ensures(ScreenBuilder::checklist, (before, entries), after),
        before@.next_node < u32::MAX,
    ensures
        ({
            &&& after@.nodes.last() matches NodeModel::Rows { id, rows }
            &&& one_list_more(before@, after@, id)
            &&& entries@.len() <= MAX_ROWS ==> rows.len() == entries@.len()
            &&& entries@.len() > MAX_ROWS ==> rows.len() == MAX_ROWS
            &&& warned_of(before@, after@, id, "rows", entries@.len(), MAX_ROWS)
            &&& forall|i: int| 0 <= i < rows.len() ==> {
                &&& (#[trigger] rows[i]).action == name::action_of(entries@[i].0@)
                &&& rows[i].title == entries@[i].1@
                &&& rows[i].summary == entries@[i].2@
                &&& rows[i].state is Done <==> entries@[i].3
                &&& rows[i].trailing is None
                &&& rows[i].menu is None
            }
            &&& 0 <= k < entries@.len() && k < MAX_ROWS ==> after@.names.contains(entries@[k].0@)
        }),
{
    list_laws::law_lists_are_announced::<Row, (&str, &str, &str, bool)>(
        before@,
        entries@,
        "rows",
        MAX_ROWS,
        k,
    );
    assert(after@.nodes.drop_last() =~= before@.nodes);
}

/// A grid shows the label of each entry, in order, in as many columns and as evenly
/// as it was asked for.
pub proof fn law_grid_are_shown(
    before: ScreenBuilder,
    columns: u8,
    square: bool,
    entries: Vec<(&str, &str)>,
    after: ScreenBuilder,
    k: int,
)
    requires
        call_ensures(ScreenBuilder::grid, (before, columns, square, entries), after),
        before@.next_node < u32::MAX,
    ensures
        ({
            &&& after@.nodes.last() matches NodeModel::Grid {
                id,
                columns: across,
                square: even,
                cells,
            }
            &&& one_list_more(before@, after@, id)
            &&& entries@.len() <= MAX_CELLS ==> cells.len() == entries@.len()
            &&& entries@.len() > MAX_CELLS ==> cells.len() == MAX_CELLS
            &&& warned_of(before@, after@, id, "grid cells", entries@.len(), MAX_CELLS)
            &&& even == square
            &&& 1 <= columns <= MAX_COLUMNS ==> across == columns
            &&& forall|i: int| 0 <= i < cells.len() ==> {
                &&& (#[trigger] cells[i]).action == name::action_of(entries@[i].0@)
                &&& cells[i].label == entries@[i].1@
                &&& cells[i].glyph is None
            }
            &&& 0 <= k < entries@.len() && k < MAX_CELLS ==> after@.names.contains(entries@[k].0@)
        }),
{
    list_laws::law_lists_are_announced::<Cell, (&str, &str)>(
        before@,
        entries@,
        "grid cells",
        MAX_CELLS,
        k,
    );
    assert(after@.nodes.drop_last() =~= before@.nodes);
}

/// A board shows the label and the mark of each entry, in order, in square cells.
pub proof fn law_board_are_shown(
    before: ScreenBuilder,
    columns: u8,
    entries: Vec<(&str, &str, Option<Glyph>)>,
    after: ScreenBuilder,
    k: int,
)
    requires
        call_ensures(ScreenBuilder::board, (before, columns, entries), after),
        before@.next_node < u32::MAX,
    ensures
        ({
            &&& after@.nodes.last() matches NodeModel::Grid {
                id,
                columns: across,
                square: even,
                cells,
            }
            &&& one_list_more(before@, after@, id)
            &&& entries@.len() <= MAX_CELLS ==> cells.len() == entries@.len()
            &&& entries@.len() > MAX_CELLS ==> cells.len() == MAX_CELLS
            &&& warned_of(before@, after@, id, "grid cells", entries@.len(), MAX_CELLS)
            &&& even
            &&& 1 <= columns <= MAX_COLUMNS ==> across == columns
            &&& forall|i: int| 0 <= i < cells.len() ==> {
                &&& (#[trigger] cells[i]).action == name::action_of(entries@[i].0@)
                &&& cells[i].label == entries@[i].1@
                &&& cells[i].glyph == entries@[i].2
            }
            &&& 0 <= k < entries@.len() && k < MAX_CELLS ==> after@.names.contains(entries@[k].0@)
        }),
{
    list_laws::law_lists_are_announced::<Cell, (&str, &str, Option<Glyph>)>(
        before@,
        entries@,
        "grid cells",
        MAX_CELLS,
        k,
    );
    assert(after@.nodes.drop_last() =~= before@.nodes);
}

/// A pad of controls shows the label and the mark of each entry, in order.
pub proof fn law_controls_are_shown(
    before: ScreenBuilder,
    columns: u8,
    entries: Vec<(&str, &str, Glyph)>,
    after: ScreenBuilder,
    k: int,
)
    requires
        call_ensures(ScreenBuilder::controls, (before, columns, entries), after),
        before@.next_node < u32::MAX,
    ensures
        ({
            &&& after@.nodes.last() matches NodeModel::Grid {
                id,
                columns: across,
                square: even,
                cells,
            }
            &&& one_list_more(before@, after@, id)
            &&& entries@.len() <= MAX_CELLS ==> cells.len() == entries@.len()
            &&& entries@.len() > MAX_CELLS ==> cells.len() == MAX_CELLS
            &&& warned_of(before@, after@, id, "grid cells", entries@.len(), MAX_CELLS)
            &&& !even
            &&& 1 <= columns <= MAX_COLUMNS ==> across == columns
            &&& forall|i: int| 0 <= i < cells.len() ==> {
                &&& (#[trigger] cells[i]).action == name::action_of(entries@[i].0@)
                &&& cells[i].label == entries@[i].1@
                &&& cells[i].glyph == Some(entries@[i].2)
            }
            &&& 0 <= k < entries@.len() && k < MAX_CELLS ==> after@.names.contains(entries@[k].0@)
        }),
{
    list_laws::law_lists_are_announced::<Cell, (&str, &str, Glyph)>(
        before@,
        entries@,
        "grid cells",
        MAX_CELLS,
        k,
    );
    assert(after@.nodes.drop_last() =~= before@.nodes);
}

/// A choice asks what it was given to ask and offers the label of each entry, in
/// order; nothing is chosen yet.
pub proof fn law_choice_are_shown(
    before: ScreenBuilder,
    prompt: &str,
    entries: Vec<(&str, &str)>,
    after: ScreenBuilder,
    k: int,
)
    requires
        call_ensures(ScreenBuilder::choice, (before, prompt, entries), after),
        before@.next_node < u32::MAX,
    ensures
        ({
            &&& after@.nodes.last() matches NodeModel::Choice {
                id,
                prompt: asked,
                options,
                selected,
                freeform,
            }
            &&& one_list_more(before@, after@, id)
            &&& entries@.len() <= MAX_CHOICE_OPTIONS ==> options.len() == entries@.len()
            &&& entries@.len() > MAX_CHOICE_OPTIONS ==> options.len() == MAX_CHOICE_OPTIONS
            &&& warned_of(before@, after@, id, "choice options", entries@.len(), MAX_CHOICE_OPTIONS)
            &&& asked == prompt@
            &&& selected is None
            &&& freeform is None
            &&& forall|i: int| 0 <= i < options.len() ==> {
                &&& (#[trigger] options[i]).action == name::action_of(entries@[i].0@)
                &&& options[i].label == entries@[i].1@
                &&& options[i].glyph is None
            }
            &&& 0 <= k < entries@.len() && k < MAX_CHOICE_OPTIONS ==>
                after@.names.contains(entries@[k].0@)
        }),
{
    list_laws::law_lists_are_announced::<BarAction, (&str, &str)>(
        before@,
        entries@,
        "choice options",
        MAX_CHOICE_OPTIONS,
        k,
    );
    assert(after@.nodes.drop_last() =~= before@.nodes);
}

/// Tiles show the label and the mark of each entry, in order, in squares.
pub proof fn law_tiles_are_shown(
    before: ScreenBuilder,
    entries: Vec<(&str, &str, Glyph)>,
    after: ScreenBuilder,
    k: int,
)
    requires
        call_ensures(ScreenBuilder::tiles, (before, entries), after),
        before@.next_node < u32::MAX,
    ensures
        ({
            &&& after@.nodes.last() matches NodeModel::TileGrid { id, tiles, shape }
            &&& one_list_more(before@, after@, id)
            &&& tiles.len() == entries@.len()
            &&& after@.warnings == before@.warnings
            &&& shape is Square
            &&& forall|i: int| 0 <= i < tiles.len() ==> {
                &&& (#[trigger] tiles[i]).action == name::action_of(entries@[i].0@)
                &&& tiles[i].label == entries@[i].1@
                &&& tiles[i].glyph == entries@[i].2
                &&& tiles[i].picture is None
                &&& tiles[i].state is Normal
                &&& tiles[i].badge.len() == 0
                &&& tiles[i].subtitle.len() == 0
            }
            &&& 0 <= k < entries@.len() ==> after@.names.contains(entries@[k].0@)
        }),
{
    list_laws::law_whole_lists_are_announced::<Tile, (&str, &str, Glyph)>(
        before@,
        entries@,
        k,
    );
    assert(after@.nodes.drop_last() =~= before@.nodes);
}

/// Applications show the name of each, in order, in squares, under the action of
/// its identity.
pub proof fn law_apps_are_shown(
    before: ScreenBuilder,
    entries: Vec<AppMetadata>,
    after: ScreenBuilder,
    k: int,
)
    requires
        call_ensures(ScreenBuilder::apps, (before, entries), after),
        before@.next_node < u32::MAX,
    ensures
        ({
            &&& after@.nodes.last() matches NodeModel::TileGrid { id, tiles, shape }
            &&& one_list_more(before@, after@, id)
            &&& tiles.len() == entries@.len()
            &&& after@.warnings == before@.warnings
            &&& shape is Square
            &&& forall|i: int| 0 <= i < tiles.len() ==> {
                &&& (#[trigger] tiles[i]).action == name::action_of(entries@[i].id@)
                &&& tiles[i].label == entries@[i].display_name@
                &&& tiles[i].badge.len() == 0
                &&& tiles[i].subtitle.len() == 0
            }
            &&& 0 <= k < entries@.len() ==> after@.names.contains(entries@[k].id@)
        }),
{
    list_laws::law_whole_lists_are_announced::<Tile, AppMetadata>(
        before@,
        entries@,
        k,
    );
    assert(after@.nodes.drop_last() =~= before@.nodes);
}

/// Picture tiles show the label, the mark and the picture of each entry, in order,
/// in the shape asked for.
pub proof fn law_picture_tiles_are_shown(
    before: ScreenBuilder,
    shape: TileShape,
    entries: Vec<(&str, &str, Glyph, Option<TilePicture>)>,
    after: ScreenBuilder,
    k: int,
)
    requires
        call_ensures(ScreenBuilder::picture_tiles, (before, shape, entries), after),
        before@.next_node < u32::MAX,
    ensures
        ({
            &&& after@.nodes.last() matches NodeModel::TileGrid { id, tiles, shape: drawn }
            &&& one_list_more(before@, after@, id)
            &&& tiles.len() == entries@.len()
            &&& after@.warnings == before@.warnings
            &&& drawn == shape
            &&& forall|i: int| 0 <= i < tiles.len() ==> {
                &&& (#[trigger] tiles[i]).action == name::action_of(entries@[i].0@)
                &&& tiles[i].label == entries@[i].1@
                &&& tiles[i].glyph == entries@[i].2
                &&& tiles[i].picture == entries@[i].3
                &&& tiles[i].state is Normal
                &&& tiles[i].badge.len() == 0
                &&& tiles[i].subtitle.len() == 0
            }
            &&& 0 <= k < entries@.len() ==> after@.names.contains(entries@[k].0@)
        }),
{
    list_laws::law_whole_lists_are_announced::<Tile, (&str, &str, Glyph, Option<TilePicture>)>(
        before@,
        entries@,
        k,
    );
    assert(after@.nodes.drop_last() =~= before@.nodes);
}

/// Chips show the label of each entry, in order, and mark the ones that are chosen.
pub proof fn law_chips_are_shown(
    before: ScreenBuilder,
    entries: Vec<(&str, &str, bool)>,
    after: ScreenBuilder,
    k: int,
)
    requires
        call_ensures(ScreenBuilder::chips, (before, entries), after),
        before@.next_node < u32::MAX,
    ensures
        ({
            &&& after@.nodes.last() matches NodeModel::Chips { id, chips }
            &&& one_list_more(before@, after@, id)
            &&& chips.len() == entries@.len()
            &&& after@.warnings == before@.warnings
            &&& forall|i: int| 0 <= i < chips.len() ==> {
                &&& (#[trigger] chips[i]).action == name::action_of(entries@[i].0@)
                &&& chips[i].label == entries@[i].1@
                &&& chips[i].selected == entries@[i].2
            }
            &&& 0 <= k < entries@.len() ==> after@.names.contains(entries@[k].0@)
        }),
{
    list_laws::law_whole_lists_are_announced::<Chip, (&str, &str, bool)>(
        before@,
        entries@,
        k,
    );
    assert(after@.nodes.drop_last() =~= before@.nodes);
}

/// Tabs show the label of each entry, in order, and the one that was chosen.
pub proof fn law_tabs_are_shown(
    before: ScreenBuilder,
    selected: usize,
    entries: Vec<(&str, &str)>,
    after: ScreenBuilder,
    k: int,
)
    requires
        call_ensures(ScreenBuilder::tabs, (before, selected, entries), after),
        before@.next_node < u32::MAX,
    ensures
        ({
            &&& after@.nodes.last() matches NodeModel::Tabs { id, tabs, selected: chosen }
            &&& one_list_more(before@, after@, id)
            &&& tabs.len() == entries@.len()
            &&& after@.warnings == before@.warnings
            &&& chosen == selected
            &&& forall|i: int| 0 <= i < tabs.len() ==> {
                &&& (#[trigger] tabs[i]).action == name::action_of(entries@[i].0@)
                &&& tabs[i].label == entries@[i].1@
                &&& tabs[i].selected == false
            }
            &&& 0 <= k < entries@.len() ==> after@.names.contains(entries@[k].0@)
        }),
{
    list_laws::law_whole_lists_are_announced::<Chip, (&str, &str)>(
        before@,
        entries@,
        k,
    );
    assert(after@.nodes.drop_last() =~= before@.nodes);
}

/// Tiles made to order show what was asked for, each changed by whoever ordered
/// it, in order and in the shape asked for.
pub proof fn law_tiles_are_made_to_order<F: FnOnce(Tile) -> Tile>(
    before: ScreenBuilder,
    shape: TileShape,
    ordered: Vec<(&str, &str, Glyph, F)>,
    after: ScreenBuilder,
)
    requires
        call_ensures(ScreenBuilder::tile_grid::<F>, (before, shape, ordered), after),
    ensures
        ({
            &&& after@.nodes.last() matches NodeModel::TileGrid { id, tiles, shape: drawn }
            &&& id.0 == before@.next_node
            &&& drawn == shape
            &&& tiles.len() == ordered@.len()
            &&& after@.nodes.len() == before@.nodes.len() + 1
            &&& forall|i: int| 0 <= i < tiles.len() ==> #[trigger] ordered_as(ordered@[i], tiles[i])
        }),
{
    let made = choose|made: Seq<Tile>|
        {
            &&& made.len() == ordered@.len()
            &&& forall|i: int|
                0 <= i < made.len() ==> #[trigger] builder_parts::made_to_order(
                    ordered@[i],
                    made[i],
                )
            &&& after@ == before@.numbered().named_all(
                ordered@.map_values(|entry: (&str, &str, Glyph, F)| entry.0@),
            ).with(
                NodeModel::TileGrid {
                    id: before@.fresh_id(),
                    tiles: #[trigger] item::models(made),
                    shape,
                },
            )
        };
    let tiles = item::models(made);
    list_laws::lemma_all_named(
        before@.numbered(),
        ordered@.map_values(|entry: (&str, &str, Glyph, F)| entry.0@),
    );
    assert forall|i: int| 0 <= i < tiles.len() implies #[trigger] ordered_as(
        ordered@[i],
        tiles[i],
    ) by {
        assert(builder_parts::made_to_order(ordered@[i], made[i]));
        let plain = choose|plain: Tile|
            plain@ == builder_parts::plain_tile(
                ordered@[i].0@,
                ordered@[i].1@,
                ordered@[i].2,
            ) && #[trigger] call_ensures(ordered@[i].3, (plain,), made[i]);
        assert(call_ensures(ordered@[i].3, (plain,), made[i]));
        assert(tiles[i] == made[i]@);
    }
}

/// Whether a tile is what somebody made of the plain tile with the label and the
/// mark of their order.
pub open spec fn ordered_as<F: FnOnce(Tile) -> Tile>(
    order: (&str, &str, Glyph, F),
    drawn: TileModel,
) -> bool {
    exists|plain: Tile, tile: Tile|
        {
            &&& plain@.action == name::action_of(order.0@)
            &&& plain@.label == order.1@
            &&& plain@.glyph == order.2
            &&& plain@.picture is None
            &&& plain@.state is Normal
            &&& #[trigger] call_ensures(order.3, (plain,), tile)
            &&& tile@ == drawn
        }
}

/// Whatever does not fit is warned about where it stands, and is no error; and a
/// second bar at the bottom is told of like any list that is too long.
pub proof fn law_what_does_not_fit_is_a_warning(
    builder: BuilderModel,
    id: NodeId,
    collection: &'static str,
    visible: usize,
    nav_bar: Option<NavBarModel>,
    bottom_action: Option<BottomActionModel>,
)
    ensures
        builder::truncation(id, collection, visible).severity is Warning,
        builder::truncation(id, collection, visible).node == Some(id),
        builder.nav_bar is None && builder.bottom_action is None ==> builder.bottomed(
            id,
            nav_bar,
            bottom_action,
        ).warnings == builder.warnings,
        builder.nav_bar is Some || builder.bottom_action is Some ==> {
            let after = builder.bottomed(id, nav_bar, bottom_action);
            &&& after.warnings.len() == builder.warnings.len() + 1
            &&& after.warnings.drop_last() == builder.warnings
            &&& after.warnings.last().severity is Warning
            &&& after.warnings.last().kind == (LayoutIssueKind::CollectionTruncated {
                collection: "bottom bar",
                provided: 2,
                visible: 1,
            })
        },
        builder.bottomed(id, nav_bar, bottom_action).nav_bar == nav_bar,
        builder.bottomed(id, nav_bar, bottom_action).bottom_action == bottom_action,
{
    let after = builder.bottomed(id, nav_bar, bottom_action);
    if builder.nav_bar is Some || builder.bottom_action is Some {
        assert(after.warnings.drop_last() =~= builder.warnings);
    }
}

/// What is told of a page is what was found wrong with it, of a node its number,
/// and an action of a dialog can be pressed unless it is disabled.
pub proof fn law_pages_tell_what_was_found(
    builder: &ScreenBuilder,
    warnings: &[LayoutIssue],
    node: &Node,
    id: NodeId,
    action: DialogAction,
    disabled: bool,
    set: DialogAction,
)
    ensures
        call_ensures(ScreenBuilder::warnings, (builder,), warnings) ==> warnings@
            == builder@.warnings,
        call_ensures(Node::id, (node,), id) ==> id == builder::id_of(node@),
        call_ensures(DialogAction::disabled, (action, disabled), set) ==> {
            &&& set@.state is Disabled <==> disabled
            &&& set@.name == action@.name
            &&& set@.label == action@.label
        },
{
}

} // verus!
