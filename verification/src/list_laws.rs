//! What a list on a screen says, in terms of the entries it was made from.

use vstd::prelude::*;

use crate::builder::{BuilderModel, LayoutIssueKind};
use crate::builder_lists;
use crate::builder_lists::Entry;
use crate::glyph::Glyph;
use crate::limits::MAX_COLUMNS;
use crate::metadata::{AppIcon, AppMetadata};
use crate::name;
use crate::ui::{BarAction, Cell, Chip, Row, RowLead, Tile, TilePicture};

verus! {

// ---------------------------------------------------------------------------
// Lists of any kind.

/// As many controls are shown as there were entries, up to the limit, and each
/// stands where its entry stood.
pub proof fn law_lists_keep_their_order<Made: View, E: Entry<Made>>(
    entries: Seq<E>,
    limit: usize,
    i: int,
)
    ensures
        ({
            let shown = builder_lists::shown::<Made, E>(entries, limit);
            let all = builder_lists::controls_of::<Made, E>(entries);
            &&& all.len() == entries.len()
            &&& entries.len() <= limit ==> shown.len() == entries.len()
            &&& entries.len() > limit ==> shown.len() == limit
            &&& 0 <= i < all.len() ==> all[i] == entries[i].control()
            &&& 0 <= i < shown.len() ==> shown[i] == entries[i].control()
        }),
{
}

pub proof fn lemma_all_named(builder: BuilderModel, names: Seq<Seq<char>>)
    ensures
        forall|i: int|
            0 <= i < names.len() ==> builder.named_all(names).names.contains(#[trigger] names[i]),
        forall|known: Seq<char>| #[trigger]
            builder.names.contains(known) ==> builder.named_all(names).names.contains(known),
        forall|known: Seq<char>| #[trigger]
            builder.named_all(names).names.contains(known) ==> builder.names.contains(known)
                || names.contains(known),
        builder.named_all(names) == (BuilderModel {
            names: builder.named_all(names).names,
            ..builder
        }),
    decreases names.len(),
{
    if names.len() > 0 {
        let before = builder.named_all(names.drop_last());
        let after = builder.named_all(names);
        lemma_all_named(builder, names.drop_last());
        assert forall|known: Seq<char>| #[trigger] before.names.contains(known) implies
            after.names.contains(known) by {
            let i = choose|i: int| 0 <= i < before.names.len() && before.names[i] == known;
            assert(after.names[i] == known);
        }
        if !before.names.contains(names.last()) {
            assert(after.names.last() == names.last());
            assert(after.names.contains(names.last()));
        }
        assert forall|i: int| 0 <= i < names.len() implies after.names.contains(
            #[trigger] names[i],
        ) by {
            if i < names.len() - 1 {
                assert(names.drop_last()[i] == names[i]);
                assert(before.names.contains(names[i]));
            }
        }
        assert forall|known: Seq<char>| #[trigger] after.names.contains(known) implies
            builder.names.contains(known) || names.contains(known) by {
            let i = choose|i: int| 0 <= i < after.names.len() && after.names[i] == known;
            if i < before.names.len() {
                assert(before.names[i] == known);
                assert(before.names.contains(known));
                if names.drop_last().contains(known) {
                    let j = choose|j: int|
                        0 <= j < names.drop_last().len() && names.drop_last()[j] == known;
                    assert(names[j] == known);
                }
            } else {
                assert(names[names.len() - 1] == known);
            }
        }
    }
}

/// Making a list gives out one number and makes known the names of what is
/// shown, and leaves the page itself alone; it says so once when there is more
/// than is shown, and only then.
pub proof fn law_lists_are_announced<Made: View, E: Entry<Made>>(
    builder: BuilderModel,
    entries: Seq<E>,
    collection: &'static str,
    limit: usize,
    i: int,
)
    requires
        builder.next_node < u32::MAX,
        limit < usize::MAX,
    ensures
        ({
            let after = builder.listing::<Made, E>(entries, collection, limit);
            &&& after.next_node == builder.next_node + 1
            &&& after.screen() == builder.screen()
            &&& 0 <= i < entries.len() && i < limit ==> after.names.contains(entries[i].called())
            &&& forall|known: Seq<char>| #[trigger]
                builder.names.contains(known) ==> after.names.contains(known)
            &&& entries.len() <= limit ==> after.warnings == builder.warnings
            &&& entries.len() > limit ==> {
                &&& after.warnings.len() == builder.warnings.len() + 1
                &&& after.warnings.drop_last() == builder.warnings
                &&& after.warnings.last().node == Some(builder.fresh_id())
                &&& after.warnings.last().kind matches LayoutIssueKind::CollectionTruncated {
                    collection: cut,
                    provided,
                    visible,
                }
                &&& cut == collection
                &&& provided == limit + 1
                &&& visible == limit
            }
        }),
{
    let names = builder_lists::names_of::<Made, E>(
        crate::prose::at_most(entries, limit as int),
    );
    let after = builder.listing::<Made, E>(entries, collection, limit);
    lemma_all_named(builder.numbered(), names);
    if 0 <= i < entries.len() && i < limit {
        assert(names[i] == entries[i].called());
    }
    if entries.len() > limit {
        assert(after.warnings.drop_last() =~= builder.warnings);
    }
}

/// Making a list of which everything is shown gives out one number, makes known
/// every name and leaves everything else alone.
pub proof fn law_whole_lists_are_announced<Made: View, E: Entry<Made>>(
    builder: BuilderModel,
    entries: Seq<E>,
    i: int,
)
    requires
        builder.next_node < u32::MAX,
    ensures
        ({
            let after = builder.listing_all::<Made, E>(entries);
            &&& after.next_node == builder.next_node + 1
            &&& after.screen() == builder.screen()
            &&& after.warnings == builder.warnings
            &&& 0 <= i < entries.len() ==> after.names.contains(entries[i].called())
            &&& forall|known: Seq<char>| #[trigger]
                builder.names.contains(known) ==> after.names.contains(known)
        }),
{
    let names = builder_lists::names_of::<Made, E>(entries);
    lemma_all_named(builder.numbered(), names);
    if 0 <= i < entries.len() {
        assert(names[i] == entries[i].called());
    }
}

/// A grid has as many columns as were asked for, from one up to as many as fit.
pub proof fn law_grids_have_the_columns_asked_for(columns: u8)
    ensures
        1 <= columns <= MAX_COLUMNS ==> builder_lists::columns_shown(columns) == columns,
        columns == 0 ==> builder_lists::columns_shown(columns) == 1,
        columns > MAX_COLUMNS ==> builder_lists::columns_shown(columns) == MAX_COLUMNS,
{
}

// ---------------------------------------------------------------------------
// Rows.

/// A row has the action of its entry's name, and its title, its summary and its
/// lead, and nothing more.
pub proof fn law_rows_say_what_was_given(
    entries: Seq<(&str, &str, &str, RowLead)>,
    limit: usize,
    i: int,
)
    requires
        0 <= i < entries.len(),
        i < limit,
    ensures
        ({
            let entry = entries[i];
            let made = builder_lists::shown::<Row, (&str, &str, &str, RowLead)>(entries, limit);
            &&& made == builder_lists::controls_of::<Row, (&str, &str, &str, RowLead)>(entries)
                || entries.len() > limit
            &&& <(&str, &str, &str, RowLead) as Entry<Row>>::called(entry) == entry.0@
            &&& made[i].action == name::action_of(entry.0@)
            &&& made[i].title == entry.1@
            &&& made[i].summary == entry.2@
            &&& made[i].lead == entry.3
            &&& made[i].state is Open
            &&& made[i].trailing is None
            &&& made[i].menu is None
        }),
{
    law_lists_keep_their_order::<Row, (&str, &str, &str, RowLead)>(entries, limit, i);
}

/// A row with a word at its far end has the action of its entry's name, its
/// title, its summary, its lead and its word, and no word where there was none
/// to say.
pub proof fn law_rows_with_trailing_say_what_was_given(
    entries: Seq<(&str, &str, &str, RowLead, &str)>,
    limit: usize,
    i: int,
)
    requires
        0 <= i < entries.len(),
        i < limit,
    ensures
        ({
            let entry = entries[i];
            let made = builder_lists::shown::<Row, (
                &str,
                &str,
                &str,
                RowLead,
                &str,
            )>(entries, limit);
            &&& made == builder_lists::controls_of::<Row, (
                &str,
                &str,
                &str,
                RowLead,
                &str,
            )>(entries)
                || entries.len() > limit
            &&& <(&str, &str, &str, RowLead, &str) as Entry<Row>>::called(entry) == entry.0@
            &&& made[i].action == name::action_of(entry.0@)
            &&& made[i].title == entry.1@
            &&& made[i].summary == entry.2@
            &&& made[i].lead == entry.3
            &&& made[i].state is Open
            &&& made[i].trailing is Some <==> entry.4@.len() > 0
            &&& made[i].trailing is Some ==> made[i].trailing->0 == entry.4@
            &&& made[i].menu is None
        }),
{
    law_lists_keep_their_order::<Row, (&str, &str, &str, RowLead, &str)>(entries, limit, i);
}

/// A row of a checklist has the action of its entry's name, its title and its
/// summary; it is struck off and checked exactly when its entry is done, and
/// otherwise open behind a circle.
pub proof fn law_checklists_say_what_was_given(
    entries: Seq<(&str, &str, &str, bool)>,
    limit: usize,
    i: int,
)
    requires
        0 <= i < entries.len(),
        i < limit,
    ensures
        ({
            let entry = entries[i];
            let made = builder_lists::shown::<Row, (&str, &str, &str, bool)>(entries, limit);
            &&& made == builder_lists::controls_of::<Row, (&str, &str, &str, bool)>(entries)
                || entries.len() > limit
            &&& <(&str, &str, &str, bool) as Entry<Row>>::called(entry) == entry.0@
            &&& made[i].action == name::action_of(entry.0@)
            &&& made[i].title == entry.1@
            &&& made[i].summary == entry.2@
            &&& made[i].state is Done <==> entry.3
            &&& made[i].state is Open <==> !entry.3
            &&& made[i].lead == (if entry.3 {
                RowLead::Icon(Glyph::Check)
            } else {
                RowLead::Icon(Glyph::Circle)
            })
            &&& made[i].trailing is None
            &&& made[i].menu is None
        }),
{
    law_lists_keep_their_order::<Row, (&str, &str, &str, bool)>(entries, limit, i);
}

// ---------------------------------------------------------------------------
// Controls.

/// A bare control has the action of its entry's name and its label.
pub proof fn law_bar_actions_say_what_was_given(
    entries: Seq<(&str, &str)>,
    limit: usize,
    i: int,
)
    requires
        0 <= i < entries.len(),
        i < limit,
    ensures
        ({
            let entry = entries[i];
            let made = builder_lists::shown::<BarAction, (&str, &str)>(entries, limit);
            &&& made == builder_lists::controls_of::<BarAction, (&str, &str)>(entries)
                || entries.len() > limit
            &&& <(&str, &str) as Entry<BarAction>>::called(entry) == entry.0@
            &&& made[i].action == name::action_of(entry.0@)
            &&& made[i].label == entry.1@
            &&& made[i].glyph is None
        }),
{
    law_lists_keep_their_order::<BarAction, (&str, &str)>(entries, limit, i);
}

/// A control has the action of its entry's name, its label and its mark.
pub proof fn law_marked_bar_actions_say_what_was_given(
    entries: Seq<(&str, &str, Option<Glyph>)>,
    limit: usize,
    i: int,
)
    requires
        0 <= i < entries.len(),
        i < limit,
    ensures
        ({
            let entry = entries[i];
            let made = builder_lists::shown::<BarAction, (
                &str,
                &str,
                Option<Glyph>,
            )>(entries, limit);
            &&& made == builder_lists::controls_of::<BarAction, (
                &str,
                &str,
                Option<Glyph>,
            )>(entries)
                || entries.len() > limit
            &&& <(&str, &str, Option<Glyph>) as Entry<BarAction>>::called(entry) == entry.0@
            &&& made[i].action == name::action_of(entry.0@)
            &&& made[i].label == entry.1@
            &&& made[i].glyph == entry.2
        }),
{
    law_lists_keep_their_order::<BarAction, (&str, &str, Option<Glyph>)>(entries, limit, i);
}

/// A tab has the action of its entry's name and its label, and is not marked
/// itself: the bar says which is chosen.
pub proof fn law_tabs_say_what_was_given(
    entries: Seq<(&str, &str)>,
    limit: usize,
    i: int,
)
    requires
        0 <= i < entries.len(),
        i < limit,
    ensures
        ({
            let entry = entries[i];
            let made = builder_lists::shown::<Chip, (&str, &str)>(entries, limit);
            &&& made == builder_lists::controls_of::<Chip, (&str, &str)>(entries)
                || entries.len() > limit
            &&& <(&str, &str) as Entry<Chip>>::called(entry) == entry.0@
            &&& made[i].action == name::action_of(entry.0@)
            &&& made[i].label == entry.1@
            &&& made[i].selected == false
        }),
{
    law_lists_keep_their_order::<Chip, (&str, &str)>(entries, limit, i);
}

/// A chip has the action of its entry's name, its label and whether it is
/// chosen.
pub proof fn law_chips_say_what_was_given(
    entries: Seq<(&str, &str, bool)>,
    limit: usize,
    i: int,
)
    requires
        0 <= i < entries.len(),
        i < limit,
    ensures
        ({
            let entry = entries[i];
            let made = builder_lists::shown::<Chip, (&str, &str, bool)>(entries, limit);
            &&& made == builder_lists::controls_of::<Chip, (&str, &str, bool)>(entries)
                || entries.len() > limit
            &&& <(&str, &str, bool) as Entry<Chip>>::called(entry) == entry.0@
            &&& made[i].action == name::action_of(entry.0@)
            &&& made[i].label == entry.1@
            &&& made[i].selected == entry.2
        }),
{
    law_lists_keep_their_order::<Chip, (&str, &str, bool)>(entries, limit, i);
}

/// A cell has the action of its entry's name and its label.
pub proof fn law_cells_say_what_was_given(
    entries: Seq<(&str, &str)>,
    limit: usize,
    i: int,
)
    requires
        0 <= i < entries.len(),
        i < limit,
    ensures
        ({
            let entry = entries[i];
            let made = builder_lists::shown::<Cell, (&str, &str)>(entries, limit);
            &&& made == builder_lists::controls_of::<Cell, (&str, &str)>(entries)
                || entries.len() > limit
            &&& <(&str, &str) as Entry<Cell>>::called(entry) == entry.0@
            &&& made[i].action == name::action_of(entry.0@)
            &&& made[i].label == entry.1@
            &&& made[i].glyph is None
        }),
{
    law_lists_keep_their_order::<Cell, (&str, &str)>(entries, limit, i);
}

/// A cell of a board has the action of its entry's name, its label and its mark,
/// where it has one.
pub proof fn law_board_cells_say_what_was_given(
    entries: Seq<(&str, &str, Option<Glyph>)>,
    limit: usize,
    i: int,
)
    requires
        0 <= i < entries.len(),
        i < limit,
    ensures
        ({
            let entry = entries[i];
            let made = builder_lists::shown::<Cell, (&str, &str, Option<Glyph>)>(entries, limit);
            &&& made == builder_lists::controls_of::<Cell, (&str, &str, Option<Glyph>)>(entries)
                || entries.len() > limit
            &&& <(&str, &str, Option<Glyph>) as Entry<Cell>>::called(entry) == entry.0@
            &&& made[i].action == name::action_of(entry.0@)
            &&& made[i].label == entry.1@
            &&& made[i].glyph == entry.2
        }),
{
    law_lists_keep_their_order::<Cell, (&str, &str, Option<Glyph>)>(entries, limit, i);
}

/// A marked cell has the action of its entry's name, its label and its mark.
pub proof fn law_control_cells_say_what_was_given(
    entries: Seq<(&str, &str, Glyph)>,
    limit: usize,
    i: int,
)
    requires
        0 <= i < entries.len(),
        i < limit,
    ensures
        ({
            let entry = entries[i];
            let made = builder_lists::shown::<Cell, (&str, &str, Glyph)>(entries, limit);
            &&& made == builder_lists::controls_of::<Cell, (&str, &str, Glyph)>(entries)
                || entries.len() > limit
            &&& <(&str, &str, Glyph) as Entry<Cell>>::called(entry) == entry.0@
            &&& made[i].action == name::action_of(entry.0@)
            &&& made[i].label == entry.1@
            &&& made[i].glyph == Some(entry.2)
        }),
{
    law_lists_keep_their_order::<Cell, (&str, &str, Glyph)>(entries, limit, i);
}

// ---------------------------------------------------------------------------
// Tiles.

/// A tile has the action of its entry's name, its label and its glyph, and
/// nothing more.
pub proof fn law_tiles_say_what_was_given(
    entries: Seq<(&str, &str, Glyph)>,
    limit: usize,
    i: int,
)
    requires
        0 <= i < entries.len(),
        i < limit,
    ensures
        ({
            let entry = entries[i];
            let made = builder_lists::shown::<Tile, (&str, &str, Glyph)>(entries, limit);
            &&& made == builder_lists::controls_of::<Tile, (&str, &str, Glyph)>(entries)
                || entries.len() > limit
            &&& <(&str, &str, Glyph) as Entry<Tile>>::called(entry) == entry.0@
            &&& made[i].action == name::action_of(entry.0@)
            &&& made[i].label == entry.1@
            &&& made[i].glyph == entry.2
            &&& made[i].picture is None
            &&& made[i].state is Normal
            &&& made[i].badge.len() == 0
            &&& made[i].subtitle.len() == 0
        }),
{
    law_lists_keep_their_order::<Tile, (&str, &str, Glyph)>(entries, limit, i);
}

/// A tile with a picture has the action of its entry's name, its label, its
/// glyph and its picture, where it has one.
pub proof fn law_picture_tiles_say_what_was_given(
    entries: Seq<(&str, &str, Glyph, Option<TilePicture>)>,
    limit: usize,
    i: int,
)
    requires
        0 <= i < entries.len(),
        i < limit,
    ensures
        ({
            let entry = entries[i];
            let made = builder_lists::shown::<Tile, (
                &str,
                &str,
                Glyph,
                Option<TilePicture>,
            )>(entries, limit);
            &&& made == builder_lists::controls_of::<Tile, (
                &str,
                &str,
                Glyph,
                Option<TilePicture>,
            )>(entries)
                || entries.len() > limit
            &&& <(&str, &str, Glyph, Option<TilePicture>) as Entry<Tile>>::called(entry) == entry.0@
            &&& made[i].action == name::action_of(entry.0@)
            &&& made[i].label == entry.1@
            &&& made[i].glyph == entry.2
            &&& made[i].picture == entry.3
            &&& made[i].state is Normal
            &&& made[i].badge.len() == 0
            &&& made[i].subtitle.len() == 0
        }),
{
    law_lists_keep_their_order::<Tile, (&str, &str, Glyph, Option<TilePicture>)>(entries, limit, i);
}

/// The tile of an application has the action of its identity, its name, and its
/// icon: a picture with a glyph to fall back on, or a glyph alone.
pub proof fn law_app_tiles_say_what_was_given(
    entries: Seq<AppMetadata>,
    limit: usize,
    i: int,
)
    requires
        0 <= i < entries.len(),
        i < limit,
    ensures
        ({
            let entry = entries[i];
            let made = builder_lists::shown::<Tile, AppMetadata>(entries, limit);
            &&& made == builder_lists::controls_of::<Tile, AppMetadata>(entries)
                || entries.len() > limit
            &&& <AppMetadata as Entry<Tile>>::called(entry) == entry.id@
            &&& made[i].action == name::action_of(entry.id@)
            &&& made[i].label == entry.display_name@
            &&& match entry.icon {
                AppIcon::Glyph(glyph) => made[i].glyph == glyph && made[i].picture is None,
                AppIcon::Picture { picture, fallback } => made[i].glyph == fallback
                    && made[i].picture == Some(picture),
            }
            &&& made[i].state is Normal
            &&& made[i].badge.len() == 0
            &&& made[i].subtitle.len() == 0
        }),
{
    law_lists_keep_their_order::<Tile, AppMetadata>(entries, limit, i);
}

} // verus!
