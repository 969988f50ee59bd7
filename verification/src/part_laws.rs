//! What the larger parts of a page hold, and what amending the last of them
//! changes.

use vstd::prelude::*;

use crate::builder::{BuilderModel, ScreenBuilder};
use crate::builder_laws;
use crate::builder_parts;
use crate::glyph::Glyph;
use crate::limits::{MAX_INLINE_FORMULAE, MAX_ROWS, MAX_TERMINAL_ROWS, MAX_TEXT_LINKS};
use crate::name;
use crate::prose;
use crate::ui::{
    Caret, ControlState, InlineFormula, NodeModel, ParagraphPresentation, RichTextSpan, RowLead,
    ScreenModel, TextLink, TilePicture,
};

verus! {

// ---------------------------------------------------------------------------
// Links.

/// Every link of a text stands for one that was asked for and names a run of
/// the text; no more are kept than may be.
pub proof fn law_links_were_asked_for(
    entries: Seq<(&str, usize, usize)>,
    text: Seq<char>,
    i: int,
)
    requires
        0 <= i < builder_parts::links_of(entries, text).len(),
    ensures
        ({
            let link = builder_parts::links_of(entries, text)[i];
            &&& prose::is_run(text, link.start as int, link.end as int)
            &&& builder_parts::links_of(entries, text).len() <= MAX_TEXT_LINKS
            &&& builder_parts::link_names(entries, text).len() == builder_parts::links_of(
                entries,
                text,
            ).len()
            &&& link.action == name::action_of(builder_parts::link_names(entries, text)[i])
            &&& exists|j: int|
                {
                    &&& 0 <= j < entries.len()
                    &&& j < MAX_TEXT_LINKS
                    &&& link.action == name::action_of((#[trigger] entries[j]).0@)
                    &&& link.start == entries[j].1
                    &&& link.end == entries[j].2
                }
        }),
{
    let offered = prose::at_most(entries, MAX_TEXT_LINKS as int);
    let lands = |entry: (&str, usize, usize)|
        prose::is_run(text, entry.1 as int, entry.2 as int);
    let landed = builder_parts::landed(offered, text);
    offered.lemma_filter_len(lands);
    assert(lands(landed[i]) && offered.contains(landed[i])) by {
        lemma_filtered(offered, lands, i);
    }
    let j = choose|j: int| 0 <= j < offered.len() && offered[j] == landed[i];
    assert(entries[j] == landed[i]);
}

proof fn lemma_filtered<T>(list: Seq<T>, keep: spec_fn(T) -> bool, i: int)
    requires
        0 <= i < list.filter(keep).len(),
    ensures
        keep(list.filter(keep)[i]),
        list.contains(list.filter(keep)[i]),
    decreases list.len(),
{
    reveal(Seq::filter);
    if list.len() > 0 {
        let shorter = list.drop_last().filter(keep);
        if i < shorter.len() {
            lemma_filtered(list.drop_last(), keep, i);
            let j = choose|j: int|
                0 <= j < list.drop_last().len() && list.drop_last()[j] == shorter[i];
            assert(list[j] == shorter[i]);
        } else {
            assert(list[list.len() - 1] == list.filter(keep)[i]);
        }
    }
}

proof fn lemma_all_kept<T>(list: Seq<T>, keep: spec_fn(T) -> bool)
    requires
        forall|i: int| 0 <= i < list.len() ==> keep(#[trigger] list[i]),
    ensures
        list.filter(keep) == list,
    decreases list.len(),
{
    reveal(Seq::filter);
    if list.len() > 0 {
        assert forall|i: int| 0 <= i < list.drop_last().len() implies keep(
            #[trigger] list.drop_last()[i],
        ) by {
            assert(list[i] == list.drop_last()[i]);
        }
        lemma_all_kept(list.drop_last(), keep);
        assert(list.drop_last().push(list.last()) =~= list);
    } else {
        assert(list =~= Seq::empty());
    }
}

/// Links that all name runs of the text, and are no more than may be kept, are
/// all kept, in order, each with its own name and its own run.
pub proof fn law_links_that_land_are_kept(
    entries: Seq<(&str, usize, usize)>,
    text: Seq<char>,
    i: int,
)
    requires
        entries.len() <= MAX_TEXT_LINKS,
        forall|j: int|
            0 <= j < entries.len() ==> prose::is_run(
                text,
                (#[trigger] entries[j]).1 as int,
                entries[j].2 as int,
            ),
        0 <= i < entries.len(),
    ensures
        builder_parts::links_of(entries, text).len() == entries.len(),
        builder_parts::links_of(entries, text)[i] == (TextLink {
            action: name::action_of(entries[i].0@),
            start: entries[i].1,
            end: entries[i].2,
        }),
        builder_parts::link_names(entries, text)[i] == entries[i].0@,
{
    let lands = |entry: (&str, usize, usize)|
        prose::is_run(text, entry.1 as int, entry.2 as int);
    lemma_all_kept(entries, lands);
}

/// A paragraph with links says its text and has the links that land on it, and
/// says so when there were more than may be kept.
pub proof fn law_linked_texts_say_what_was_given(
    before: ScreenBuilder,
    after: ScreenBuilder,
    text: &str,
    links: Vec<(&str, usize, usize)>,
    spans: Vec<RichTextSpan>,
    presentation: ParagraphPresentation,
    context: u64,
    offset: u32,
)
    ensures
        ({
            let last = after@.nodes.last();
            let kept = builder_parts::links_of(links@, text@);
            let rich = {
                &&& after@.nodes.drop_last() == before@.nodes
                &&& last is RichText
                &&& last->RichText_text == text@
                &&& last->RichText_spans == spans@
                &&& last->RichText_links == kept
                &&& last->RichText_presentation == presentation
                &&& last->RichText_formulae.len() == 0
            };
            &&& call_ensures(ScreenBuilder::text_linking, (before, text, links), after) ==> {
                &&& after@.nodes.drop_last() == before@.nodes
                &&& last is Text
                &&& last->Text_text == text@
                &&& last->Text_links == kept
                &&& links@.len() <= MAX_TEXT_LINKS ==> after@.warnings.len()
                    == before@.warnings.len()
                &&& links@.len() > MAX_TEXT_LINKS ==> after@.warnings.len()
                    == before@.warnings.len() + 1
            }
            &&& call_ensures(
                ScreenBuilder::rich_text_linking,
                (before, text, spans, presentation, links),
                after,
            ) ==> rich && last->RichText_selection is None
            &&& call_ensures(
                ScreenBuilder::selectable_rich_text_linking,
                (before, text, spans, presentation, context, offset, links),
                after,
            ) ==> {
                &&& rich
                &&& last->RichText_selection matches Some(selection)
                &&& selection.context == context
                &&& selection.offset == offset
            }
        }),
{
    crate::list_laws::lemma_all_named(
        before@.numbered(),
        builder_parts::link_names(links@, text@),
    );
    assert(before@.nodes.push(after@.nodes.last()).drop_last() =~= before@.nodes);
}

// ---------------------------------------------------------------------------
// Lists.

/// A row with a menu has the action of its name, its title, its summary and its
/// lead, and the menu that it names, where it names one.
pub proof fn law_rows_with_menus_say_what_was_given(
    before: ScreenBuilder,
    after: ScreenBuilder,
    rows: Vec<(&str, &str, &str, RowLead, &str)>,
    i: int,
)
    requires
        call_ensures(ScreenBuilder::rows_with_menu, (before, rows), after),
    ensures
        ({
            &&& after@.nodes.len() == before@.nodes.len() + 1
            &&& after@.nodes.last() matches NodeModel::Rows { id, rows: made }
            &&& rows@.len() <= MAX_ROWS ==> made.len() == rows@.len()
            &&& rows@.len() > MAX_ROWS ==> made.len() == MAX_ROWS
            &&& 0 <= i < made.len() ==> {
                &&& made[i].action == name::action_of(rows@[i].0@)
                &&& made[i].title == rows@[i].1@
                &&& made[i].summary == rows@[i].2@
                &&& made[i].lead == rows@[i].3
                &&& made[i].state is Open
                &&& made[i].trailing is None
                &&& made[i].menu is Some <==> rows@[i].4@.len() > 0
                &&& made[i].menu is Some ==> made[i].menu->0 == name::action_of(rows@[i].4@)
            }
        }),
{
    lemma_menus_only_name(before@.numbered(), prose::at_most(rows@, MAX_ROWS as int));
}

proof fn lemma_menus_only_name(
    builder: BuilderModel,
    rows: Seq<(&str, &str, &str, RowLead, &str)>,
)
    ensures
        builder_parts::named_with_menus(builder, rows) == (BuilderModel {
            names: builder_parts::named_with_menus(builder, rows).names,
            ..builder
        }),
    decreases rows.len(),
{
    if rows.len() > 0 {
        lemma_menus_only_name(builder, rows.drop_last());
    }
}

/// Every name that a row or its menu answers to is known.
pub proof fn law_rows_with_menus_are_known(
    builder: BuilderModel,
    rows: Seq<(&str, &str, &str, RowLead, &str)>,
    i: int,
)
    requires
        0 <= i < rows.len(),
    ensures
        builder_parts::named_with_menus(builder, rows).names.contains(rows[i].0@),
        rows[i].4@.len() > 0 ==> builder_parts::named_with_menus(builder, rows).names.contains(
            rows[i].4@,
        ),
    decreases rows.len(),
{
    builder_laws::lemma_named();
    if i < rows.len() - 1 {
        assert(rows.drop_last()[i] == rows[i]);
        law_rows_with_menus_are_known(builder, rows.drop_last(), i);
    }
}

/// A list of pages and a terminal show the lines they were given, in order; a
/// terminal shows as many as it has rows, and says so when there were more.
pub proof fn law_lines_are_shown_in_order(
    before: ScreenBuilder,
    after: ScreenBuilder,
    page: u16,
    lines: Vec<&str>,
    cursor: Option<Caret>,
    i: int,
)
    ensures
        call_ensures(ScreenBuilder::paged_list, (before, page, lines), after) ==> {
            &&& builder_laws::one_more(before@, after@, after@.nodes.last())
            &&& after@.nodes.last() matches NodeModel::PagedList { id, page: shown, items }
            &&& shown == page
            &&& items.len() == lines@.len()
            &&& 0 <= i < items.len() ==> items[i] == lines@[i]@
        },
        call_ensures(ScreenBuilder::terminal, (before, lines, cursor), after) ==> {
            &&& after@.nodes.len() == before@.nodes.len() + 1
            &&& after@.nodes.last() matches NodeModel::Terminal { id, rows, cursor: caret }
            &&& caret == cursor
            &&& lines@.len() <= MAX_TERMINAL_ROWS ==> rows.len() == lines@.len()
                && after@.warnings == before@.warnings
            &&& lines@.len() > MAX_TERMINAL_ROWS ==> rows.len() == MAX_TERMINAL_ROWS
                && after@.warnings.len() == before@.warnings.len() + 1
            &&& 0 <= i < rows.len() ==> rows[i] == lines@[i]@
        },
{
}

/// Facts are shown in order, each a label and its value; nothing is shown for
/// none, but its number is given out.
pub proof fn law_facts_say_what_was_given(
    before: ScreenBuilder,
    after: ScreenBuilder,
    entries: Vec<(&str, &str)>,
    i: int,
)
    requires
        call_ensures(ScreenBuilder::facts, (before, entries), after),
    ensures
        entries@.len() == 0 ==> after@.nodes == before@.nodes && after@.screen()
            == before@.screen(),
        entries@.len() > 0 ==> {
            &&& builder_laws::one_more(before@, after@, after@.nodes.last())
            &&& after@.nodes.last() matches NodeModel::Facts { id, entries: shown }
            &&& shown.len() == entries@.len()
            &&& 0 <= i < shown.len() ==> shown[i].0 == entries@[i].0@ && shown[i].1
                == entries@[i].1@
        },
{
}

// ---------------------------------------------------------------------------
// Work under way.

/// Something under way has its label, and as much progress as was told, up to
/// all of it.
pub proof fn law_activities_say_what_was_given(
    before: ScreenBuilder,
    after: ScreenBuilder,
    label: &str,
    progress: Option<u8>,
)
    requires
        call_ensures(ScreenBuilder::activity, (before, label, progress), after),
    ensures
        builder_laws::one_more(before@, after@, after@.nodes.last()),
        after@.nodes.last() matches NodeModel::Activity {
            id,
            label: said,
            progress: shown,
            cancel,
            transferred,
            failure,
        } && {
            &&& said == label@
            &&& cancel is None
            &&& transferred is None
            &&& failure is None
            &&& shown is Some <==> progress is Some
            &&& progress matches Some(value) ==> shown->0.value == (if value <= 100 {
                value
            } else {
                100
            })
        },
{
}

/// A transfer tells what has moved and of how much, once there is anything to
/// tell, and the share that is done.
pub proof fn law_transfers_say_what_was_given(
    before: ScreenBuilder,
    after: ScreenBuilder,
    label: &str,
    received: u64,
    total: Option<u64>,
)
    requires
        call_ensures(ScreenBuilder::transfer, (before, label, received, total), after),
    ensures
        builder_laws::one_more(before@, after@, after@.nodes.last()),
        after@.nodes.last() matches NodeModel::Activity {
            id,
            label: said,
            progress,
            cancel,
            transferred,
            failure,
        } && {
            &&& said == label@
            &&& cancel is None
            &&& failure is None
            &&& transferred is None <==> received == 0 && total is None
            &&& transferred is Some ==> transferred->0 == (received, total)
            &&& progress is Some <==> total is Some && total->0 > 0
            &&& progress == builder_parts::share_done(received, total)
        },
{
}

/// The share of a transfer that is done is the whole hundredths of it: all of it
/// once everything arrived, and never more than has.
pub proof fn law_shares_are_whole_hundredths(received: u64, total: u64)
    requires
        total > 0,
        received * 100 <= u64::MAX,
    ensures
        builder_parts::share_done(received, None) is None,
        builder_parts::share_done(received, Some(0)) is None,
        builder_parts::share_done(received, Some(total)) matches Some(share) && {
            &&& received >= total ==> share.value == 100
            &&& received < total ==> share.value < 100 && share.value * total <= received * 100
                && received * 100 < (share.value + 1) * total
        },
{
    let hundredfold = received * 100;
    let percent = hundredfold / (total as int);
    vstd::arithmetic::div_mod::lemma_fundamental_div_mod(hundredfold, total as int);
    assert(percent * total == total * percent) by (nonlinear_arith);
    assert((percent + 1) * total == percent * total + total) by (nonlinear_arith);
    if received >= total {
        assert(percent >= 100) by (nonlinear_arith)
            requires
                received >= total,
                total > 0,
                hundredfold == received * 100,
                hundredfold < (percent + 1) * total,
        ;
    } else {
        assert(0 <= percent < 100) by (nonlinear_arith)
            requires
                0 <= received < total,
                hundredfold == received * 100,
                percent * total <= hundredfold,
                hundredfold < (percent + 1) * total,
        ;
    }
}

/// A length in millimeters is told in tenths, up to the longest that can be told.
pub proof fn law_lengths_are_told_in_tenths(length: u16)
    ensures
        length <= 6553 ==> builder_parts::tenfold(length) == 10 * length,
        length > 6553 ==> builder_parts::tenfold(length) == u16::MAX,
{
}

/// A picture is the one it was given, of the height asked for, and framed unless
/// it was asked not to be.
pub proof fn law_pictures_are_the_ones_given(
    before: ScreenBuilder,
    after: ScreenBuilder,
    picture: TilePicture,
    height: u16,
)
    ensures
        ({
            let last = after@.nodes.last();
            let grew = {
                &&& builder_laws::one_more(before@, after@, last)
                &&& last is Picture
                &&& last->Picture_handle == picture.handle
                &&& last->Picture_source == picture.source
                &&& height <= 6553 ==> last->Picture_max_height_tenths_mm == 10 * height
            };
            &&& call_ensures(ScreenBuilder::picture, (before, picture, height), after) ==> grew
                && last->Picture_framed
            &&& call_ensures(ScreenBuilder::unframed_picture, (before, picture, height), after)
                ==> grew && !last->Picture_framed
        }),
{
}

/// A stepper lowers by the first control and raises by the second, each with its
/// own mark and both answering, around its label.
pub proof fn law_steppers_say_what_was_given(
    before: ScreenBuilder,
    after: ScreenBuilder,
    label: &str,
    less: &str,
    less_glyph: Glyph,
    more: &str,
    more_glyph: Glyph,
)
    requires
        call_ensures(
            ScreenBuilder::stepper,
            (before, label, less, less_glyph, more, more_glyph),
            after,
        ),
    ensures
        builder_laws::one_more(before@, after@, after@.nodes.last()),
        after@.names.contains(less@),
        after@.names.contains(more@),
        after@.nodes.last() matches NodeModel::Stepper {
            id,
            label: said,
            less: lowers,
            more: raises,
            less_state,
            more_state,
            fill,
        } && {
            &&& said == label@
            &&& lowers.action == name::action_of(less@)
            &&& lowers.glyph == Some(less_glyph)
            &&& raises.action == name::action_of(more@)
            &&& raises.glyph == Some(more_glyph)
            &&& less_state is Enabled
            &&& more_state is Enabled
            &&& fill is None
        },
{
    builder_laws::lemma_named();
}

// ---------------------------------------------------------------------------
// Amending the last node.

/// Whether nothing but the last node of a page is different.
pub open spec fn amended(before: BuilderModel, after: BuilderModel) -> bool {
    &&& after.nodes.len() == before.nodes.len()
    &&& before.nodes.len() > 0 ==> after.nodes.drop_last() == before.nodes.drop_last()
    &&& after.next_node == before.next_node
    &&& after.warnings == before.warnings
    &&& after.screen() == (ScreenModel { nodes: after.nodes, ..before.screen() })
}

proof fn lemma_amended()
    ensures
        forall|builder: BuilderModel, node: NodeModel|
            builder.nodes.len() > 0 ==> (#[trigger] builder.amended(node)).nodes.drop_last()
                == builder.nodes.drop_last(),
{
    assert forall|builder: BuilderModel, node: NodeModel| builder.nodes.len() > 0 implies (
    #[trigger] builder.amended(node)).nodes.drop_last() == builder.nodes.drop_last() by {
        assert(builder.amended(node).nodes.drop_last() =~= builder.nodes.drop_last());
    }
}

/// A field with something in it can be emptied by the name it was given; an
/// empty one, and anything that is no field, is left as it was.
pub proof fn law_fields_can_be_emptied(before: ScreenBuilder, after: ScreenBuilder, name: &str)
    requires
        call_ensures(ScreenBuilder::field_clear, (before, name), after),
    ensures
        amended(before@, after@),
        after@.names.contains(name@),
        before@.nodes.len() > 0 ==> match before@.nodes.last() {
            NodeModel::Field { id, action, value, placeholder, clear } => {
                &&& after@.nodes.last() matches NodeModel::Field {
                    id: same,
                    action: does,
                    value: holds,
                    placeholder: hint,
                    clear: empties,
                }
                &&& same == id
                &&& does == action
                &&& holds == value
                &&& hint == placeholder
                &&& value.len() > 0 ==> empties == Some(name::action_of(name@))
                &&& value.len() == 0 ==> empties == clear
            },
            other => after@.nodes.last() == other,
        },
{
    lemma_amended();
    builder_laws::lemma_named();
}

/// The ends of a stepper answer as they were told to, each for itself, and its
/// track is drawn as far as it was told, up to all of it; anything that is no
/// stepper is left as it was.
pub proof fn law_steppers_are_told_their_ends(
    before: ScreenBuilder,
    after: ScreenBuilder,
    less: bool,
    more: bool,
    percent: u8,
)
    requires
        before@.nodes.len() > 0,
    ensures
        call_ensures(ScreenBuilder::stepper_ends, (before, less, more), after) ==> {
            &&& amended(before@, after@)
            &&& match before@.nodes.last() {
                NodeModel::Stepper {
                    id,
                    label,
                    less: lowers,
                    more: raises,
                    less_state,
                    more_state,
                    fill,
                } => after@.nodes.last() == (NodeModel::Stepper {
                    id,
                    label,
                    less: lowers,
                    more: raises,
                    less_state: if less {
                        ControlState::Enabled
                    } else {
                        ControlState::Disabled
                    },
                    more_state: if more {
                        ControlState::Enabled
                    } else {
                        ControlState::Disabled
                    },
                    fill,
                }),
                other => after@.nodes.last() == other,
            }
        },
        call_ensures(ScreenBuilder::stepper_track, (before, percent), after) ==> {
            &&& amended(before@, after@)
            &&& match before@.nodes.last() {
                NodeModel::Stepper {
                    id,
                    label,
                    less: lowers,
                    more: raises,
                    less_state,
                    more_state,
                    fill,
                } => after@.nodes.last() == (NodeModel::Stepper {
                    id,
                    label,
                    less: lowers,
                    more: raises,
                    less_state,
                    more_state,
                    fill: Some(
                        if percent <= 100 {
                            percent
                        } else {
                            100
                        },
                    ),
                }),
                other => after@.nodes.last() == other,
            }
        },
{
    lemma_amended();
}

/// A question takes the words it was told to take, and the answer that was
/// marked is the one of that number, if it has that one; its prompt and its
/// answers stay, and so does anything that is no question.
pub proof fn law_questions_are_answered(
    before: ScreenBuilder,
    after: ScreenBuilder,
    name: &str,
    hint: &str,
    index: usize,
)
    requires
        before@.nodes.len() > 0,
    ensures
        call_ensures(ScreenBuilder::or_type, (before, name, hint), after) ==> {
            &&& amended(before@, after@)
            &&& after@.names.contains(name@)
            &&& match before@.nodes.last() {
                NodeModel::Choice { id, prompt, options, selected, freeform } => {
                    &&& after@.nodes.last() matches NodeModel::Choice {
                        id: same,
                        prompt: asked,
                        options: answers,
                        selected: marked,
                        freeform: typed,
                    }
                    &&& same == id
                    &&& asked == prompt
                    &&& answers == options
                    &&& marked == selected
                    &&& typed matches Some(words)
                    &&& words.action == name::action_of(name@)
                    &&& words.placeholder == hint@
                },
                other => after@.nodes.last() == other,
            }
        },
        call_ensures(ScreenBuilder::chosen, (before, index), after) ==> {
            &&& amended(before@, after@)
            &&& match before@.nodes.last() {
                NodeModel::Choice { id, prompt, options, selected, freeform } => {
                    &&& after@.nodes.last() matches NodeModel::Choice {
                        id: same,
                        prompt: asked,
                        options: answers,
                        selected: marked,
                        freeform: typed,
                    }
                    &&& same == id
                    &&& asked == prompt
                    &&& answers == options
                    &&& typed == freeform
                    &&& index < options.len() && index <= 255 ==> marked is Some && marked->0
                        == index
                    &&& index >= options.len() || index > 255 ==> marked is None
                },
                other => after@.nodes.last() == other,
            }
        },
{
    lemma_amended();
    builder_laws::lemma_named();
}

/// Something under way is stopped by the name and the word it was given, and
/// fails for the reason it was given; nothing else about it changes, nor
/// anything that is not under way.
pub proof fn law_activities_are_amended(
    before: ScreenBuilder,
    after: ScreenBuilder,
    name: &str,
    word: &str,
    resumable: bool,
)
    requires
        before@.nodes.len() > 0,
    ensures
        call_ensures(ScreenBuilder::cancellable, (before, name, word), after) ==> {
            &&& amended(before@, after@)
            &&& after@.names.contains(name@)
            &&& match before@.nodes.last() {
                NodeModel::Activity { id, label, progress, cancel, transferred, failure } => {
                    &&& after@.nodes.last() matches NodeModel::Activity {
                        id: same,
                        label: said,
                        progress: share,
                        cancel: stops,
                        transferred: moved,
                        failure: failed,
                    }
                    &&& same == id
                    &&& said == label
                    &&& share == progress
                    &&& moved == transferred
                    &&& failed == failure
                    &&& stops matches Some(control)
                    &&& control.action == name::action_of(name@)
                    &&& control.label == word@
                    &&& control.glyph is None
                },
                other => after@.nodes.last() == other,
            }
        },
        call_ensures(ScreenBuilder::transfer_failed, (before, word, resumable), after) ==> {
            &&& amended(before@, after@)
            &&& match before@.nodes.last() {
                NodeModel::Activity { id, label, progress, cancel, transferred, failure } => {
                    &&& after@.nodes.last() matches NodeModel::Activity {
                        id: same,
                        label: said,
                        progress: share,
                        cancel: stops,
                        transferred: moved,
                        failure: failed,
                    }
                    &&& same == id
                    &&& said == label
                    &&& share == progress
                    &&& stops == cancel
                    &&& moved == transferred
                    &&& failed matches Some(why)
                    &&& why.reason == word@
                    &&& why.resumable == resumable
                },
                other => after@.nodes.last() == other,
            }
        },
{
    lemma_amended();
    builder_laws::lemma_named();
}

/// Trying again is offered exactly after a transfer that failed and can be
/// resumed.
pub proof fn law_only_resumable_transfers_are_tried_again(
    before: ScreenBuilder,
    after: ScreenBuilder,
    name: &str,
    label: &str,
)
    requires
        call_ensures(ScreenBuilder::transfer_retry, (before, name, label), after),
        before@.nodes.len() > 0,
    ensures
        ({
            let last = before@.nodes.last();
            let resumes = last is Activity && last->Activity_failure is Some
                && last->Activity_failure->0.resumable;
            &&& !resumes ==> after@ == before@
            &&& resumes ==> {
                &&& builder_laws::one_more(before@, after@, after@.nodes.last())
                &&& after@.nodes.last() matches NodeModel::Button {
                    id,
                    action,
                    label: said,
                    state,
                    emphasis,
                }
                &&& action == name::action_of(name@)
                &&& said == label@
            }
        }),
{
    builder_laws::lemma_named();
}

// ---------------------------------------------------------------------------
// Formulas.

/// Whether a formula begins where the one before it does not reach.
pub open spec fn follows(formulae: Seq<InlineFormula>, i: int) -> bool {
    formulae[i - 1].end <= formulae[i].start
}

/// Whether formulas of a text stand in order on runs of it, none reaching into
/// the next.
pub open spec fn stand_in_order(formulae: Seq<InlineFormula>, text: Seq<char>) -> bool {
    &&& forall|i: int|
        0 <= i < formulae.len() ==> prose::is_run(
            text,
            (#[trigger] formulae[i]).start as int,
            formulae[i].end as int,
        )
    &&& forall|i: int| 0 < i < formulae.len() ==> #[trigger] follows(formulae, i)
}

/// Formulas that are drawn over a paragraph stand in order on runs of it, and
/// those that stood there before stay.
pub proof fn law_formulas_stand_in_order(
    kept: Seq<InlineFormula>,
    offered: Seq<InlineFormula>,
    text: Seq<char>,
)
    requires
        stand_in_order(kept, text),
    ensures
        stand_in_order(builder_parts::set_in_line(kept, offered, text), text),
        kept.len() <= builder_parts::set_in_line(kept, offered, text).len() <= kept.len()
            + offered.len(),
        builder_parts::set_in_line(kept, offered, text).take(kept.len() as int) == kept,
    decreases offered.len(),
{
    if offered.len() > 0 {
        let formula = offered[0];
        let fits = prose::is_run(text, formula.start as int, formula.end as int) && (kept.len()
            == 0 || kept.last().end <= formula.start);
        let now = if fits {
            kept.push(formula)
        } else {
            kept
        };
        assert forall|i: int| 0 < i < now.len() implies #[trigger] follows(now, i) by {
            if i < kept.len() {
                assert(follows(kept, i));
            }
        }
        law_formulas_stand_in_order(now, offered.drop_first(), text);
        let after = builder_parts::set_in_line(kept, offered, text);
        assert(after.take(kept.len() as int) =~= after.take(now.len() as int).take(
            kept.len() as int,
        ));
        assert(now.take(kept.len() as int) =~= kept);
    } else {
        assert(kept.take(kept.len() as int) =~= kept);
    }
}

/// Formulas that stand in order behind those of a paragraph are all drawn.
pub proof fn law_formulas_in_order_are_drawn(
    kept: Seq<InlineFormula>,
    offered: Seq<InlineFormula>,
    text: Seq<char>,
)
    requires
        stand_in_order(kept + offered, text),
    ensures
        builder_parts::set_in_line(kept, offered, text) == kept + offered,
    decreases offered.len(),
{
    let all = kept + offered;
    if offered.len() > 0 {
        assert(all[kept.len() as int] == offered[0]);
        if kept.len() > 0 {
            assert(follows(all, kept.len() as int));
        }
        assert(kept.push(offered[0]) + offered.drop_first() =~= all);
        law_formulas_in_order_are_drawn(kept.push(offered[0]), offered.drop_first(), text);
    } else {
        assert(all =~= kept);
    }
}

/// Formulas are drawn over a set paragraph and nothing else, and change nothing
/// else of it.
pub proof fn law_formulas_are_drawn_over_paragraphs(
    before: ScreenBuilder,
    after: ScreenBuilder,
    offered: Vec<InlineFormula>,
)
    requires
        call_ensures(ScreenBuilder::with_formulae, (before, offered), after),
        before@.nodes.len() > 0,
    ensures
        amended(before@, after@),
        match before@.nodes.last() {
            NodeModel::RichText { id, text, spans, links, presentation, selection, formulae } => {
                &&& after@.nodes.last() matches NodeModel::RichText {
                    id: same,
                    text: said,
                    spans: set,
                    links: linked,
                    presentation: presented,
                    selection: held,
                    formulae: drawn,
                }
                &&& same == id
                &&& said == text
                &&& set == spans
                &&& linked == links
                &&& presented == presentation
                &&& held == selection
                &&& offered@.len() <= MAX_INLINE_FORMULAE ==> drawn
                    == builder_parts::set_in_line(formulae, offered@, text)
                &&& drawn.len() <= formulae.len() + MAX_INLINE_FORMULAE
            },
            other => after@.nodes.last() == other,
        },
{
    lemma_amended();
    if let NodeModel::RichText { id, text, spans, links, presentation, selection, formulae } =
        before@.nodes.last() {
        lemma_few_are_drawn(
            formulae,
            prose::at_most(offered@, MAX_INLINE_FORMULAE as int),
            text,
        );
    }
}

proof fn lemma_few_are_drawn(
    kept: Seq<InlineFormula>,
    offered: Seq<InlineFormula>,
    text: Seq<char>,
)
    ensures
        builder_parts::set_in_line(kept, offered, text).len() <= kept.len() + offered.len(),
    decreases offered.len(),
{
    if offered.len() > 0 {
        lemma_few_are_drawn(kept, offered.drop_first(), text);
        lemma_few_are_drawn(kept.push(offered[0]), offered.drop_first(), text);
    }
}

} // verus!
