//! What bars, columns and covers hold, in terms of what was said when they were
//! made.

use vstd::prelude::*;

use crate::builder::{BuilderModel, ScreenBuilder};
use crate::builder_lists;
use crate::builder_laws;
use crate::builder_layers;
use crate::failure::{Failure, JOIN_WIFI};
use crate::glyph::Glyph;
use crate::item;
use crate::limits::{MAX_BAND_SLOTS, MAX_ROWS};
use crate::list_laws;
use crate::name;
use crate::prose;
use crate::ui::{
    BandAlign, BandSlotModel, BarAction, NodeModel, OverlayKind, Row, RowLead, ScreenModel,
    SlotWidth, TilePicture,
};

verus! {

// ---------------------------------------------------------------------------
// The bar at the top.

/// The bar at the top has its title and no controls yet, and the page is left
/// alone.
pub proof fn law_top_bars_say_what_was_given(
    before: ScreenBuilder,
    after: ScreenBuilder,
    title: &str,
)
    requires
        call_ensures(ScreenBuilder::top_bar, (before, title), after),
    ensures
        after@.top_bar matches Some(bar) && bar.title == title@ && bar.actions.len() == 0
            && bar.id.0 == before@.next_node,
        after@.screen() == (ScreenModel { top_bar: after@.top_bar, ..before@.screen() }),
        before@.next_node < u32::MAX ==> after@.next_node == before@.next_node + 1,
        after@.warnings == before@.warnings,
{
}

/// A control of the bar at the top comes behind those that are there, does what
/// its name says, and has its label and its mark, where it was given one. Where
/// there is no bar, there is still none.
pub proof fn law_top_bars_take_controls(
    before: ScreenBuilder,
    after: ScreenBuilder,
    name: &str,
    label: &str,
    glyph: Glyph,
)
    ensures
        ({
            let took = |mark: Option<Glyph>|
                {
                    &&& after@.names.contains(name@)
                    &&& after@.screen() == (ScreenModel {
                        top_bar: after@.top_bar,
                        ..before@.screen()
                    })
                    &&& before@.top_bar is None ==> after@.top_bar is None
                    &&& before@.top_bar matches Some(bar) ==> {
                        &&& after@.top_bar matches Some(fuller)
                        &&& fuller.title == bar.title
                        &&& fuller.id == bar.id
                        &&& fuller.actions.len() == bar.actions.len() + 1
                        &&& fuller.actions.drop_last() == bar.actions
                        &&& fuller.actions.last().action == name::action_of(name@)
                        &&& fuller.actions.last().label == label@
                        &&& fuller.actions.last().glyph == mark
                    }
                };
            &&& call_ensures(ScreenBuilder::top_bar_action, (before, name, label), after) ==> took(
                None,
            )
            &&& call_ensures(ScreenBuilder::top_bar_glyph, (before, name, label, glyph), after)
                ==> took(Some(glyph))
        }),
{
    builder_laws::lemma_named();
    if let Some(bar) = before@.top_bar {
        assert(bar.actions.push(after@.top_bar->0.actions.last()).drop_last() =~= bar.actions);
    }
}

proof fn lemma_offered(builder: BuilderModel, items: Seq<(&str, &str)>)
    ensures
        ({
            let after = builder.offering_all(items);
            let n = builder.nodes.len() as int;
            &&& after.nodes.len() == n + items.len()
            &&& after.nodes.take(n) == builder.nodes
            &&& after.top_bar == builder.top_bar
            &&& after.screen() == (ScreenModel { nodes: after.nodes, ..builder.screen() })
            &&& forall|i: int|
                0 <= i < items.len() ==> (#[trigger] after.nodes[n + i] matches NodeModel::Button {
                    id,
                    action,
                    label,
                    state,
                    emphasis,
                } && action == name::action_of(items[i].0@) && label == items[i].1@ && state
                    is Enabled && emphasis is Normal)
        }),
    decreases items.len(),
{
    let n = builder.nodes.len() as int;
    if items.len() > 0 {
        lemma_offered(builder, items.drop_last());
        let earlier = builder.offering_all(items.drop_last());
        let after = builder.offering_all(items);
        assert(after.nodes.take(n) =~= earlier.nodes.take(n));
        assert forall|i: int| 0 <= i < items.len() implies (#[trigger] after.nodes[n + i] matches
            NodeModel::Button { id, action, label, state, emphasis } && action == name::action_of(
            items[i].0@,
        ) && label == items[i].1@ && state is Enabled && emphasis is Normal) by {
            if i < items.len() - 1 {
                assert(earlier.nodes[n + i] == after.nodes[n + i]);
                assert(items.drop_last()[i] == items[i]);
            }
        }
    } else {
        assert(builder.nodes.take(n) =~= builder.nodes);
    }
}

/// The menu of the bar at the top is not drawn when nothing is in it; while it
/// is closed there are dots alone; and while it is open it hangs off the dots,
/// over a page that is as it was, with a button for each thing in it, in order.
pub proof fn law_menus_hang_off_their_dots(
    before: ScreenBuilder,
    after: ScreenBuilder,
    name: &str,
    open: bool,
    items: Vec<(&str, &str)>,
    i: int,
)
    requires
        call_ensures(ScreenBuilder::top_bar_overflow, (before, name, open, items), after),
    ensures
        items@.len() == 0 ==> after@ == before@,
        items@.len() > 0 ==> {
            &&& after@.nodes == before@.nodes
            &&& before@.top_bar matches Some(bar) ==> {
                &&& after@.top_bar matches Some(dotted)
                &&& dotted.title == bar.title
                &&& dotted.actions.len() == bar.actions.len() + 1
                &&& dotted.actions.last().action == name::action_of(name@)
                &&& dotted.actions.last().glyph == Some(Glyph::More)
            }
            &&& before@.top_bar is None ==> after@.top_bar is None
        },
        items@.len() > 0 && !open ==> after@.overlay == before@.overlay,
        items@.len() > 0 && open ==> {
            &&& after@.overlay matches Some(menu)
            &&& menu.kind == (OverlayKind::Popover { anchor: name::action_of(name@) })
            &&& menu.title.len() == 0
            &&& menu.nodes.len() == items@.len()
            &&& 0 <= i < items@.len() ==> (menu.nodes[i] matches NodeModel::Button {
                id,
                action,
                label,
                state,
                emphasis,
            } && action == name::action_of(items@[i].0@) && label == items@[i].1@)
        },
{
    let start = before@.with_dots(name@).numbered().emptied();
    lemma_offered(start, items@);
    if 0 <= i < items@.len() {
        assert(start.offering_all(items@).nodes[0 + i] == start.offering_all(items@).nodes[i]);
    }
}

/// The menu of a row is drawn while it is open and there is something in it: it
/// hangs off the row, over a page that is as it was, with a row for each thing
/// in it, in order.
pub proof fn law_row_menus_hang_off_their_rows(
    before: ScreenBuilder,
    after: ScreenBuilder,
    anchor: &str,
    open: bool,
    items: Vec<(&str, &str, Glyph)>,
    i: int,
)
    requires
        call_ensures(ScreenBuilder::row_overflow, (before, anchor, open, items), after),
    ensures
        !open || items@.len() == 0 ==> after@ == before@,
        open && items@.len() > 0 ==> {
            &&& after@.nodes == before@.nodes
            &&& after@.top_bar == before@.top_bar
            &&& after@.overlay matches Some(menu)
            &&& menu.kind == (OverlayKind::Popover { anchor: name::action_of(anchor@) })
            &&& menu.nodes.len() == 1
            &&& menu.nodes[0] matches NodeModel::Rows { id, rows }
            &&& items@.len() <= MAX_ROWS ==> rows.len() == items@.len()
            &&& items@.len() > MAX_ROWS ==> rows.len() == MAX_ROWS
            &&& 0 <= i < rows.len() ==> {
                &&& rows[i].action == name::action_of(items@[i].0@)
                &&& rows[i].title == items@[i].1@
                &&& rows[i].summary.len() == 0
                &&& rows[i].lead == RowLead::Icon(items@[i].2)
            }
        },
{
    reveal_strlit("");
    let rows = builder_layers::menu_rows(items@);
    let start = before@.numbered().emptied();
    list_laws::lemma_all_named(
        start.numbered(),
        builder_lists::names_of::<Row, (&str, &str, &str, RowLead)>(
            prose::at_most(rows, MAX_ROWS as int),
        ),
    );
}

// ---------------------------------------------------------------------------
// The bottom.

/// What is put at the bottom is there alone, whatever was there before, under
/// the next number, and the page is left alone.
pub open spec fn alone_at_the_bottom(before: BuilderModel, after: BuilderModel) -> bool {
    &&& after.screen() == (ScreenModel {
        nav_bar: after.nav_bar,
        bottom_action: after.bottom_action,
        ..before.screen()
    })
    &&& after.nav_bar is Some <==> after.bottom_action is None
    &&& after.nav_bar is Some ==> after.nav_bar->0.id.0 == before.next_node
    &&& after.bottom_action is Some ==> after.bottom_action->0.id.0 == before.next_node
    &&& before.nav_bar is None && before.bottom_action is None ==> after.warnings
        == before.warnings
    &&& before.nav_bar is Some || before.bottom_action is Some ==> after.warnings.len()
        == before.warnings.len() + 1
}

/// A bar of places has its places in order and says which of them the reader is
/// at; a bar of verbs has its verbs in order, with their marks, and none of them
/// is where the reader is.
pub proof fn law_bottom_bars_say_what_was_given(
    before: ScreenBuilder,
    after: ScreenBuilder,
    selected: Option<usize>,
    places: Vec<(&str, &str)>,
    verbs: Vec<(&str, &str, Option<Glyph>)>,
    i: int,
)
    ensures
        call_ensures(ScreenBuilder::nav_bar, (before, selected, places), after) ==> {
            &&& alone_at_the_bottom(before@, after@)
            &&& after@.nav_bar matches Some(bar)
            &&& bar.selected == selected
            &&& bar.style is Navigation
            &&& bar.destinations.len() == places@.len()
            &&& 0 <= i < places@.len() ==> {
                &&& bar.destinations[i].action == name::action_of(places@[i].0@)
                &&& bar.destinations[i].label == places@[i].1@
                &&& bar.destinations[i].glyph is None
                &&& after@.names.contains(places@[i].0@)
            }
        },
        call_ensures(ScreenBuilder::action_bar, (before, places), after) ==> {
            &&& alone_at_the_bottom(before@, after@)
            &&& after@.nav_bar matches Some(bar)
            &&& bar.selected is None
            &&& bar.style is Actions
            &&& bar.destinations.len() == places@.len()
            &&& 0 <= i < places@.len() ==> {
                &&& bar.destinations[i].action == name::action_of(places@[i].0@)
                &&& bar.destinations[i].label == places@[i].1@
                &&& bar.destinations[i].glyph is None
                &&& after@.names.contains(places@[i].0@)
            }
        },
        call_ensures(ScreenBuilder::action_bar_marked, (before, verbs), after) ==> {
            &&& alone_at_the_bottom(before@, after@)
            &&& after@.nav_bar matches Some(bar)
            &&& bar.selected is None
            &&& bar.style is Actions
            &&& bar.destinations.len() == verbs@.len()
            &&& 0 <= i < verbs@.len() ==> {
                &&& bar.destinations[i].action == name::action_of(verbs@[i].0@)
                &&& bar.destinations[i].label == verbs@[i].1@
                &&& bar.destinations[i].glyph == verbs@[i].2
                &&& after@.names.contains(verbs@[i].0@)
            }
        },
{
    let names = builder_lists::names_of::<BarAction, (&str, &str)>(places@);
    list_laws::lemma_all_named(before@.numbered(), names);
    if 0 <= i < places@.len() {
        assert(names[i] == places@[i].0@);
    }
    let marked = builder_lists::names_of::<BarAction, (&str, &str, Option<Glyph>)>(verbs@);
    list_laws::lemma_all_named(before@.numbered(), marked);
    if 0 <= i < verbs@.len() {
        assert(marked[i] == verbs@[i].0@);
    }
}

/// One control at the bottom does what its name says, and has its label and its
/// mark, where it was given one.
pub proof fn law_bottom_actions_say_what_was_given(
    before: ScreenBuilder,
    after: ScreenBuilder,
    name: &str,
    label: &str,
    glyph: Glyph,
)
    ensures
        ({
            let holds = |mark: Option<Glyph>|
                {
                    &&& alone_at_the_bottom(before@, after@)
                    &&& after@.names.contains(name@)
                    &&& after@.bottom_action matches Some(bottom)
                    &&& bottom.action.action == name::action_of(name@)
                    &&& bottom.action.label == label@
                    &&& bottom.action.glyph == mark
                };
            &&& call_ensures(ScreenBuilder::bottom_action, (before, name, label), after) ==> holds(
                None,
            )
            &&& call_ensures(
                ScreenBuilder::bottom_action_marked,
                (before, name, label, glyph),
                after,
            ) ==> holds(Some(glyph))
        }),
{
    builder_laws::lemma_named();
}

// ---------------------------------------------------------------------------
// Covers.

/// What covers a screen is of the kind and under the title that it was given,
/// and holds what was built for it; the page under it is as it was.
pub proof fn law_covers_hold_what_was_built(
    before: BuilderModel,
    kind: OverlayKind,
    title: Seq<char>,
    done: BuilderModel,
)
    ensures
        ({
            let after = before.covered(kind, title, done);
            &&& after.nodes == before.nodes
            &&& after.overlay matches Some(cover)
            &&& cover.id.0 == before.next_node
            &&& cover.kind == kind
            &&& cover.title == title
            &&& cover.nodes == done.nodes
            &&& after.next_node == done.next_node
            &&& after.names == done.names
            &&& after.top_bar == done.top_bar
            &&& after.nav_bar == done.nav_bar
        }),
{
}

/// A question over a screen has its title, asks what it was given, and has two
/// answers: first the one that does it, which stands out, and then the one that
/// does not.
pub proof fn law_questions_have_two_answers(
    before: ScreenBuilder,
    after: ScreenBuilder,
    title: &str,
    question: &str,
    confirm: (&str, &str),
    cancel: (&str, &str),
)
    requires
        call_ensures(ScreenBuilder::confirm, (before, title, question, confirm, cancel), after),
    ensures
        after@.nodes == before@.nodes,
        after@.names.contains(confirm.0@),
        after@.names.contains(cancel.0@),
        after@.overlay matches Some(cover) && {
            &&& cover.kind is Modal
            &&& cover.title == title@
            &&& cover.nodes.len() == 3
            &&& cover.nodes[0] matches NodeModel::Text { id, text, links } && text == question@
            &&& cover.nodes[1] matches NodeModel::Button { id, action, label, state, emphasis }
                && action == name::action_of(confirm.0@) && label == confirm.1@ && emphasis
                is Primary
            &&& cover.nodes[2] matches NodeModel::Button { id, action, label, state, emphasis }
                && action == name::action_of(cancel.0@) && label == cancel.1@ && emphasis
                is Normal
        },
{
    builder_laws::lemma_named();
}

// ---------------------------------------------------------------------------
// Columns.

/// A band has its columns in order, as many as fit, each as wide as was asked
/// for and with what was built for it, and stands last on a page that is
/// otherwise as it was.
pub proof fn law_bands_hold_what_was_built<F: FnOnce(ScreenBuilder) -> ScreenBuilder>(
    before: BuilderModel,
    align: BandAlign,
    slots: Seq<(SlotWidth, F)>,
    given: Seq<ScreenBuilder>,
    made: Seq<ScreenBuilder>,
    after: BuilderModel,
    i: int,
)
    requires
        builder_layers::banded(before, align, slots, given, made, after),
    ensures
        slots.len() == 0 ==> after.nodes == before.nodes,
        slots.len() > 0 ==> {
            &&& after.nodes.len() == before.nodes.len() + 1
            &&& after.nodes.drop_last() == before.nodes
            &&& after.nodes.last() matches NodeModel::Band { id, align: at, slots: columns }
            &&& id.0 == before.next_node
            &&& at == align
            &&& slots.len() <= MAX_BAND_SLOTS ==> columns.len() == slots.len()
            &&& slots.len() > MAX_BAND_SLOTS ==> columns.len() == MAX_BAND_SLOTS
            &&& 0 <= i < columns.len() ==> {
                &&& columns[i].width == slots[i].0
                &&& columns[i].nodes == made[i]@.nodes
                &&& call_ensures(slots[i].1, (given[i],), made[i])
                &&& given[i]@.nodes.len() == 0
                &&& i == 0 ==> given[i]@.names == before.names
                &&& i > 0 ==> given[i]@.names == made[i - 1]@.names && given[i]@.next_node
                    == made[i - 1]@.next_node
            }
        },
{
    let shown = prose::at_most(slots, MAX_BAND_SLOTS as int);
    if slots.len() > 0 {
        assert(after.nodes.drop_last() =~= before.nodes);
        if 0 <= i < shown.len() {
            assert(shown[i] == slots[i]);
            assert(call_ensures(shown[i].1, (given[i],), made[i]));
            assert(given[i]@ == builder_layers::carried(before, made, i).emptied());
        }
    }
}

proof fn lemma_button_slots(builder: BuilderModel, actions: Seq<(&str, &str)>)
    ensures
        ({
            let slots = builder.button_slots(actions);
            &&& slots.len() == actions.len()
            &&& forall|i: int| 0 <= i < actions.len() ==> is_button(#[trigger] slots[i], actions[i])
        }),
    decreases actions.len(),
{
    if actions.len() > 0 {
        lemma_button_slots(builder, actions.drop_last());
        let earlier = builder.button_slots(actions.drop_last());
        let slots = builder.button_slots(actions);
        assert forall|i: int| 0 <= i < actions.len() implies is_button(
            #[trigger] slots[i],
            actions[i],
        ) by {
            if i < actions.len() - 1 {
                assert(slots[i] == earlier[i]);
                assert(actions.drop_last()[i] == actions[i]);
            }
        }
    }
}

/// Whether a column takes the room there is and holds one plain button with this
/// name and this label.
pub open spec fn is_button(slot: BandSlotModel, action: (&str, &str)) -> bool {
    &&& slot.width is Fill
    &&& slot.nodes.len() == 1
    &&& slot.nodes[0] matches NodeModel::Button { id, action: does, label, state, emphasis }
    &&& does == name::action_of(action.0@)
    &&& label == action.1@
    &&& state is Enabled
    &&& emphasis is Normal
}

/// Buttons on one line stand side by side in order, as many as fit, each with
/// its own name and label; one alone is just a button, and none is nothing.
pub proof fn law_buttons_stand_side_by_side(
    before: ScreenBuilder,
    after: ScreenBuilder,
    actions: Vec<(&str, &str)>,
    i: int,
)
    requires
        call_ensures(ScreenBuilder::buttons, (before, actions), after),
    ensures
        actions@.len() == 0 ==> after@ == before@,
        actions@.len() > 0 ==> after@.nodes.len() == before@.nodes.len() + 1
            && after@.nodes.drop_last() == before@.nodes,
        actions@.len() == 1 ==> (after@.nodes.last() matches NodeModel::Button {
            id,
            action,
            label,
            state,
            emphasis,
        } && action == name::action_of(actions@[0].0@) && label == actions@[0].1@),
        actions@.len() > 1 ==> {
            &&& after@.nodes.last() matches NodeModel::Band { id, align, slots }
            &&& align is Middle
            &&& actions@.len() <= MAX_BAND_SLOTS ==> slots.len() == actions@.len()
            &&& actions@.len() > MAX_BAND_SLOTS ==> slots.len() == MAX_BAND_SLOTS
            &&& 0 <= i < slots.len() ==> is_button(slots[i], actions@[i])
        },
{
    let shown = prose::at_most(actions@, MAX_BAND_SLOTS as int);
    lemma_button_slots(before@.numbered(), shown);
    if actions@.len() > 0 {
        assert(after@.nodes.drop_last() =~= before@.nodes);
    }
    if 0 <= i < shown.len() {
        assert(shown[i] == actions@[i]);
    }
}

/// A length is doubled, up to the longest that can be told.
pub proof fn law_lengths_are_doubled(length: u16)
    ensures
        length <= 32767 ==> builder_layers::doubled(length) == 2 * length,
        length > 32767 ==> builder_layers::doubled(length) == u16::MAX,
{
}

/// What there is to say about something is its title, a remark where there is
/// one, and its facts where there are any, in that order.
pub proof fn law_descriptions_say_what_was_given(
    before: BuilderModel,
    title: Seq<char>,
    subtitle: Option<&str>,
    facts: Seq<(Seq<char>, Seq<char>)>,
)
    ensures
        ({
            let n = before.nodes.len() as int;
            let nodes = before.described(title, subtitle, facts).nodes;
            let remark = if subtitle is Some {
                1int
            } else {
                0
            };
            let last = if facts.len() > 0 {
                1int
            } else {
                0
            };
            &&& nodes.len() == n + 1 + remark + last
            &&& nodes.take(n) == before.nodes
            &&& nodes[n] matches NodeModel::Heading { id, text, level } && text == title && level
                == 1
            &&& subtitle matches Some(words) ==> (nodes[n + 1] matches NodeModel::Secondary {
                id,
                text,
            } && text == words@)
            &&& facts.len() > 0 ==> (nodes.last() matches NodeModel::Facts { id, entries }
                && entries == facts)
        }),
{
    let n = before.nodes.len() as int;
    assert(before.described(title, subtitle, facts).nodes.take(n) =~= before.nodes);
}

/// A cover stands beside what there is to say about it: in a column of the width
/// that was asked for, twice as high at most, with the words in the room that is
/// left. Without a cover the words stand on the page.
pub proof fn law_covers_stand_beside_their_words(
    before: ScreenBuilder,
    after: ScreenBuilder,
    picture: Option<TilePicture>,
    width: u16,
    title: &str,
    subtitle: Option<&str>,
    facts: Vec<(&str, &str)>,
)
    requires
        call_ensures(ScreenBuilder::hero, (before, picture, width, title, subtitle, facts), after),
        width <= 3276,
    ensures
        picture is None ==> after@ == before@.described(
            title@,
            subtitle,
            item::models(facts@),
        ),
        picture matches Some(cover) ==> {
            &&& after@.nodes.len() == before@.nodes.len() + 1
            &&& after@.nodes.drop_last() == before@.nodes
            &&& after@.nodes.last() matches NodeModel::Band { id, align, slots }
            &&& align is Top
            &&& slots.len() == 2
            &&& slots[0].width matches SlotWidth::Fixed(tenths)
            &&& tenths == 10 * width
            &&& slots[0].nodes.len() == 1
            &&& slots[0].nodes[0] matches NodeModel::Picture {
                id: drawn,
                handle,
                source,
                max_height_tenths_mm,
                framed,
            }
            &&& handle == cover.handle
            &&& source == cover.source
            &&& max_height_tenths_mm == 20 * width
            &&& framed
            &&& slots[1].width is Fill
            &&& slots[1].nodes.len() >= 1
            &&& slots[1].nodes[0] matches NodeModel::Heading { id: headed, text, level }
            &&& text == title@
            &&& subtitle matches Some(words) ==> (slots[1].nodes[1] matches NodeModel::Secondary {
                id: said,
                text: remark,
            } && remark == words@)
            &&& facts@.len() > 0 ==> (slots[1].nodes.last() matches NodeModel::Facts {
                id: stated,
                entries,
            } && entries == item::models(facts@))
        },
{
    if picture is Some {
        assert(after@.nodes.drop_last() =~= before@.nodes);
    }
}

// ---------------------------------------------------------------------------
// Groups and failures.

/// A group of rows is a heading with its title and its word, and then the rows
/// in order.
pub proof fn law_groups_say_what_was_given(
    before: ScreenBuilder,
    after: ScreenBuilder,
    title: &str,
    value: Option<&str>,
    rows: Vec<(&str, &str, &str, RowLead)>,
    i: int,
)
    requires
        call_ensures(ScreenBuilder::section_rows, (before, title, value, rows), after),
    ensures
        ({
            let n = before@.nodes.len() as int;
            let nodes = after@.nodes;
            &&& nodes.len() == n + 2
            &&& nodes.take(n) == before@.nodes
            &&& nodes[n] matches NodeModel::Section { id, title: said, value: word }
            &&& said == title@
            &&& word is Some <==> value is Some
            &&& value matches Some(words) ==> word->0 == words@
            &&& nodes[n + 1] matches NodeModel::Rows { id: listed, rows: made }
            &&& rows@.len() <= MAX_ROWS ==> made.len() == rows@.len()
            &&& 0 <= i < made.len() ==> {
                &&& made[i].action == name::action_of(rows@[i].0@)
                &&& made[i].title == rows@[i].1@
                &&& made[i].summary == rows@[i].2@
                &&& made[i].lead == rows@[i].3
            }
        }),
{
    let headed = before@.with_section(title@, value);
    list_laws::lemma_all_named(
        headed.numbered(),
        builder_lists::names_of::<Row, (&str, &str, &str, RowLead)>(
            prose::at_most(rows@, MAX_ROWS as int),
        ),
    );
    assert(after@.nodes.take(before@.nodes.len() as int) =~= before@.nodes);
}

/// A failure is its condition with its advice under it, and whatever would
/// honestly help: where there is no network, a way onto one, which stands out,
/// beside a way to try again; where trying again could work, that, which stands
/// out; and otherwise nothing.
pub proof fn law_failures_offer_what_helps(
    before: ScreenBuilder,
    after: ScreenBuilder,
    failure: Failure,
    retry: &str,
)
    requires
        call_ensures(ScreenBuilder::failure_state, (before, failure, retry), after),
    ensures
        ({
            let n = before@.nodes.len() as int;
            let nodes = after@.nodes;
            let helped = failure.state is Offline || failure.retryable;
            &&& nodes.len() == n + 1 + if helped {
                1int
            } else {
                0
            }
            &&& nodes.take(n) == before@.nodes
            &&& nodes[n] matches NodeModel::Splash { id, glyph, title, summary }
            &&& glyph == Some(failure.state.mark())
            &&& title == failure.state.heading()
            &&& summary == failure.advice@
            &&& failure.state is Offline ==> {
                &&& nodes[n + 1] matches NodeModel::Band { id: beside, align, slots }
                &&& slots.len() == 2
                &&& slots[0].width is Fill
                &&& slots[1].width is Fill
                &&& slots[0].nodes.len() == 1
                &&& slots[1].nodes.len() == 1
                &&& slots[0].nodes[0] matches NodeModel::Button {
                    id: join,
                    action: joins,
                    label: joining,
                    state: join_state,
                    emphasis: join_emphasis,
                }
                &&& joins == name::action_of(JOIN_WIFI@)
                &&& join_emphasis is Primary
                &&& slots[1].nodes[0] matches NodeModel::Button {
                    id: again,
                    action: retries,
                    label: trying,
                    state: again_state,
                    emphasis: again_emphasis,
                }
                &&& retries == name::action_of(retry@)
                &&& again_emphasis is Normal
                &&& joining != trying
            }
            &&& !(failure.state is Offline) && failure.retryable ==> {
                &&& nodes[n + 1] matches NodeModel::Button {
                    id: again,
                    action: retries,
                    label: trying,
                    state,
                    emphasis,
                }
                &&& retries == name::action_of(retry@)
                &&& emphasis is Primary
                &&& state is Enabled
            }
        }),
{
    reveal_strlit("Join Wi-Fi");
    reveal_strlit("Try again");
    assert("Join Wi-Fi"@.len() == 10 && "Try again"@.len() == 9);
    assert(after@.nodes.take(before@.nodes.len() as int) =~= before@.nodes);
}

} // verus!
