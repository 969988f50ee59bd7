//! What each thing that can be put on a screen puts there, in terms of what was
//! said when it was put there.

use vstd::prelude::*;

use crate::builder::{BuilderModel, DialogAction, LayoutIssue, ScreenBuilder};
use crate::failure::StandardState;
use crate::glyph::Glyph;
use crate::item;
use crate::limits::MAX_QUOTE_DEPTH;
use crate::name;
use crate::ui::{
    ActionId, BannerLevel, ControlState, FontHandle, NodeModel, ParagraphPresentation, QuoteRole,
    ReadingChrome, RichTextSpan, Screen, ScreenModel, Space, TableRow, TextScale, TilePicture,
};

verus! {

/// Whether a page has one node more, and is otherwise as it was: the node has
/// the next number, stands last, and nothing was found wrong with it.
pub open spec fn one_more(before: BuilderModel, after: BuilderModel, node: NodeModel) -> bool {
    &&& after.nodes == before.nodes.push(node)
    &&& crate::builder::id_of(node).0 == before.next_node
    &&& before.next_node < u32::MAX ==> after.next_node == before.next_node + 1
    &&& after.screen() == (ScreenModel { nodes: after.nodes, ..before.screen() })
    &&& after.warnings == before.warnings
    &&& forall|known: Seq<char>| #[trigger]
        before.names.contains(known) ==> after.names.contains(known)
}

/// Naming a control makes its name known, and no other unknown.
pub proof fn lemma_named()
    ensures
        forall|builder: BuilderModel, name: Seq<char>|
            (#[trigger] builder.named(name)).names.contains(name),
        forall|builder: BuilderModel, name: Seq<char>, known: Seq<char>|
            builder.names.contains(known) ==> #[trigger] builder.named(name).names.contains(known),
{
    assert forall|builder: BuilderModel, name: Seq<char>| (#[trigger] builder.named(
        name,
    )).names.contains(name) by {
        if !builder.names.contains(name) {
            assert(builder.named(name).names.last() == name);
        }
    }
    assert forall|builder: BuilderModel, name: Seq<char>, known: Seq<char>|
        builder.names.contains(known) implies #[trigger] builder.named(name).names.contains(
        known,
    ) by {
        let i = choose|i: int| 0 <= i < builder.names.len() && builder.names[i] == known;
        assert(builder.named(name).names[i] == known);
    }
}

// ---------------------------------------------------------------------------
// The whole screen.

/// A builder starts with an empty page of its name, with no bars, no habits and
/// nothing over it.
pub proof fn law_pages_start_empty(name: &str, fresh: ScreenBuilder)
    requires
        call_ensures(ScreenBuilder::new, (name,), fresh),
    ensures
        fresh@.id == name::identifier_of(name@),
        fresh@.next_node == 1,
        fresh@.nodes.len() == 0,
        fresh@.names.len() == 0,
        fresh@.warnings.len() == 0,
        fresh@.top_bar is None,
        fresh@.reading_surface is None,
        fresh@.nav_bar is None,
        fresh@.bottom_action is None,
        fresh@.page_turns is None,
        fresh@.hold is None,
        !fresh@.owns_back,
        fresh@.text_scale is None,
        fresh@.overlay is None,
        !fresh@.reading,
        fresh@.reading_font is None,
{
}

/// A screen is just what was built.
pub proof fn law_screens_are_what_was_built(builder: ScreenBuilder, screen: Screen)
    requires
        call_ensures(ScreenBuilder::build, (builder,), screen),
    ensures
        screen@.id == builder@.id,
        screen@.top_bar == builder@.top_bar,
        screen@.reading_surface == builder@.reading_surface,
        screen@.nodes == builder@.nodes,
        screen@.nav_bar == builder@.nav_bar,
        screen@.bottom_action == builder@.bottom_action,
        screen@.page_turns == builder@.page_turns,
        screen@.hold == builder@.hold,
        screen@.owns_back == builder@.owns_back,
        screen@.text_scale == builder@.text_scale,
        screen@.overlay == builder@.overlay,
        screen@.reading == builder@.reading,
        screen@.reading_font == builder@.reading_font,
{
}

/// A checked screen is the same screen exactly when nothing was found, and
/// otherwise everything that was found.
pub proof fn law_checked_screens_have_no_warnings(
    builder: ScreenBuilder,
    screen: Screen,
    result: Result<Screen, Vec<LayoutIssue>>,
)
    requires
        call_ensures(ScreenBuilder::build, (builder,), screen),
        call_ensures(ScreenBuilder::build_checked, (builder,), result),
    ensures
        result is Ok <==> builder@.warnings.len() == 0,
        result matches Ok(checked) ==> checked@ == screen@,
        result matches Err(found) ==> found@ == builder@.warnings,
{
}

/// An action is found by the name that a control was given, and by no other.
pub proof fn law_actions_are_found_by_name(
    builder: &ScreenBuilder,
    name: &str,
    found: Option<ActionId>,
)
    requires
        call_ensures(ScreenBuilder::action, (builder, name), found),
    ensures
        found is Some <==> builder@.names.contains(name@),
        found is Some ==> found->0 == name::action_of(name@),
{
}

/// A habit of a screen is the one it was last given, and giving it one changes
/// nothing else.
pub proof fn law_habits_are_kept(
    before: ScreenBuilder,
    after: ScreenBuilder,
    flag: bool,
    scale: TextScale,
    font: FontHandle,
)
    ensures
        call_ensures(ScreenBuilder::owns_back, (before, flag), after) ==> after@ == (BuilderModel {
            owns_back: flag,
            ..before@
        }),
        call_ensures(ScreenBuilder::text_scale, (before, scale), after) ==> after@
            == (BuilderModel { text_scale: Some(scale), ..before@ }),
        call_ensures(ScreenBuilder::reading, (before, flag), after) ==> after@ == (BuilderModel {
            reading: flag,
            ..before@
        }),
        call_ensures(ScreenBuilder::reading_font, (before, font), after) ==> after@
            == (BuilderModel { reading_font: Some(font), ..before@ }),
{
}

/// A reading surface shows the picture it was given in the chrome it was given,
/// under the next number.
pub proof fn law_surfaces_show_their_picture(
    before: ScreenBuilder,
    after: ScreenBuilder,
    picture: TilePicture,
    chrome: ReadingChrome,
)
    requires
        call_ensures(ScreenBuilder::reading_surface, (before, picture, chrome), after),
    ensures
        after@.reading_surface matches Some(surface) && surface.id.0 == before@.next_node
            && surface.picture == picture && surface.chrome == chrome,
        after@.nodes == before@.nodes,
        after@.names == before@.names,
        after@.warnings == before@.warnings,
        before@.next_node < u32::MAX ==> after@.next_node == before@.next_node + 1,
{
}

/// Pages turn back by the first name and on by the second, with no menu and no
/// position until they are given one.
pub proof fn law_pages_turn_back_and_on(
    before: ScreenBuilder,
    after: ScreenBuilder,
    previous: &str,
    next: &str,
)
    requires
        call_ensures(ScreenBuilder::page_turns, (before, previous, next), after),
    ensures
        after@.page_turns matches Some(turns) && turns.previous == name::action_of(previous@)
            && turns.next == name::action_of(next@) && turns.menu is None && turns.position
            is None,
        after@.names.contains(previous@),
        after@.names.contains(next@),
        after@.screen() == (ScreenModel { page_turns: after@.page_turns, ..before@.screen() }),
        after@.next_node == before@.next_node,
{
    lemma_named();
}

/// The position and the menu of turning pages are what was said, and touch
/// nothing else; where no pages turn, nothing is said of them.
pub proof fn law_turning_pages_are_told_where_they_are(
    before: ScreenBuilder,
    after: ScreenBuilder,
    page: u16,
    of: u16,
    menu: &str,
)
    ensures
        call_ensures(ScreenBuilder::page_position, (before, page, of), after) ==> {
            &&& before@.page_turns is None ==> after@ == before@
            &&& before@.page_turns matches Some(turns) ==> {
                &&& after@.page_turns matches Some(told)
                &&& told.position == Some((page, of))
                &&& told.previous == turns.previous
                &&& told.next == turns.next
                &&& told.menu == turns.menu
                &&& after@ == (BuilderModel { page_turns: after@.page_turns, ..before@ })
            }
        },
        call_ensures(ScreenBuilder::reading_menu, (before, menu), after) ==> {
            &&& after@.names.contains(menu@)
            &&& before@.page_turns is None ==> after@.page_turns is None
            &&& before@.page_turns matches Some(turns) ==> {
                &&& after@.page_turns matches Some(told)
                &&& told.menu == Some(name::action_of(menu@))
                &&& told.previous == turns.previous
                &&& told.next == turns.next
                &&& told.position == turns.position
            }
            &&& after@.screen() == (ScreenModel {
                page_turns: after@.page_turns,
                ..before@.screen()
            })
        },
{
    lemma_named();
}

/// Holding the content does what the name says.
pub proof fn law_holding_does_what_it_says(
    before: ScreenBuilder,
    after: ScreenBuilder,
    action: &str,
)
    requires
        call_ensures(ScreenBuilder::hold, (before, action), after),
    ensures
        after@.hold == Some(name::action_of(action@)),
        after@.names.contains(action@),
        after@.screen() == (ScreenModel { hold: after@.hold, ..before@.screen() }),
{
    lemma_named();
}

// ---------------------------------------------------------------------------
// Words.

/// A heading is of the level asked for, from one on, and says what it was given;
/// a plain heading is of the first level.
pub proof fn law_headings_say_what_was_given(
    before: ScreenBuilder,
    after: ScreenBuilder,
    level: u8,
    text: &str,
)
    ensures
        call_ensures(ScreenBuilder::heading, (before, text), after) ==> one_more(
            before@,
            after@,
            NodeModel::Heading { id: before@.fresh_id(), text: text@, level: 1 },
        ),
        call_ensures(ScreenBuilder::heading_at_level, (before, level, text), after) ==> {
            &&& after@.nodes.last() matches NodeModel::Heading { id, text: said, level: at }
            &&& said == text@
            &&& level >= 1 ==> at == level
            &&& level == 0 ==> at == 1
            &&& one_more(before@, after@, after@.nodes.last())
        },
{
}

/// A paragraph, a remark, a banner and a placeholder say what they were given.
pub proof fn law_paragraphs_say_what_was_given(
    before: ScreenBuilder,
    after: ScreenBuilder,
    text: &str,
    level: BannerLevel,
    lines: u8,
)
    ensures
        call_ensures(ScreenBuilder::text, (before, text), after) ==> one_more(
            before@,
            after@,
            NodeModel::Text { id: before@.fresh_id(), text: text@, links: Seq::empty() },
        ),
        call_ensures(ScreenBuilder::secondary, (before, text), after) ==> one_more(
            before@,
            after@,
            NodeModel::Secondary { id: before@.fresh_id(), text: text@ },
        ),
        call_ensures(ScreenBuilder::banner, (before, level, text), after) ==> one_more(
            before@,
            after@,
            NodeModel::Banner { id: before@.fresh_id(), level, text: text@ },
        ),
        call_ensures(ScreenBuilder::skeleton, (before, lines), after) ==> one_more(
            before@,
            after@,
            NodeModel::Skeleton { id: before@.fresh_id(), lines },
        ),
{
}

/// The heading of a group has its title, and the word at its other end where it
/// was given one.
pub proof fn law_sections_say_what_was_given(
    before: ScreenBuilder,
    after: ScreenBuilder,
    title: &str,
    value: &str,
)
    ensures
        call_ensures(ScreenBuilder::section, (before, title), after) ==> one_more(
            before@,
            after@,
            NodeModel::Section { id: before@.fresh_id(), title: title@, value: None },
        ),
        call_ensures(ScreenBuilder::section_with_value, (before, title, value), after)
            ==> one_more(
            before@,
            after@,
            NodeModel::Section { id: before@.fresh_id(), title: title@, value: Some(value@) },
        ),
{
}

/// A set paragraph has its text, its spans and its presentation, and no links,
/// no selection and no formulas.
pub proof fn law_set_paragraphs_say_what_was_given(
    before: ScreenBuilder,
    after: ScreenBuilder,
    text: &str,
    spans: Vec<RichTextSpan>,
    presentation: ParagraphPresentation,
)
    requires
        call_ensures(ScreenBuilder::rich_text, (before, text, spans, presentation), after),
    ensures
        one_more(
            before@,
            after@,
            NodeModel::RichText {
                id: before@.fresh_id(),
                text: text@,
                spans: spans@,
                links: Seq::empty(),
                presentation,
                selection: None,
                formulae: Seq::empty(),
            },
        ),
{
}

/// A splash has its mark, its title and its summary, each in its place.
pub proof fn law_splashes_say_what_was_given(
    before: ScreenBuilder,
    after: ScreenBuilder,
    glyph: Option<Glyph>,
    title: &str,
    summary: &str,
)
    requires
        call_ensures(ScreenBuilder::splash, (before, glyph, title, summary), after),
    ensures
        one_more(
            before@,
            after@,
            NodeModel::Splash {
                id: before@.fresh_id(),
                glyph,
                title: title@,
                summary: summary@,
            },
        ),
{
}

/// A paragraph of a thread is as deep as was asked for, up to as deep as can be
/// read, in the role it was given; a byline that folds says what folds away.
pub proof fn law_threads_say_what_was_given(
    before: ScreenBuilder,
    after: ScreenBuilder,
    depth: u8,
    role: QuoteRole,
    text: &str,
    name: &str,
    collapsed: bool,
    hidden: u16,
)
    ensures
        ({
            let last = after@.nodes.last();
            let shown = after@.nodes.last()->Quote_depth;
            let grew = {
                &&& one_more(before@, after@, last)
                &&& last is Quote
                &&& depth <= MAX_QUOTE_DEPTH ==> shown == depth
                &&& depth > MAX_QUOTE_DEPTH ==> shown == MAX_QUOTE_DEPTH
                &&& last->Quote_text == text@
            };
            &&& call_ensures(ScreenBuilder::quote, (before, depth, text), after) ==> grew
                && last->Quote_role is Body && last->Quote_fold is None
            &&& call_ensures(ScreenBuilder::byline, (before, depth, text), after) ==> grew
                && last->Quote_role is Byline && last->Quote_fold is None
            &&& call_ensures(ScreenBuilder::quote_as, (before, depth, role, text), after) ==> grew
                && last->Quote_role == role && last->Quote_fold is None
            &&& call_ensures(
                ScreenBuilder::folding_byline,
                (before, depth, text, name, collapsed, hidden),
                after,
            ) ==> {
                &&& grew
                &&& last->Quote_role is Byline
                &&& last->Quote_fold matches Some(fold)
                &&& fold.action == name::action_of(name@)
                &&& fold.collapsed == collapsed
                &&& fold.hidden == hidden
            }
        }),
{
}

// ---------------------------------------------------------------------------
// Controls.

/// A button does what its name says and shows its label; it is enabled and plain
/// unless it was asked to be otherwise.
pub proof fn law_buttons_say_what_was_given(
    before: ScreenBuilder,
    after: ScreenBuilder,
    name: &str,
    label: &str,
    state: ControlState,
)
    ensures
        ({
            let last = after@.nodes.last();
            let grew = {
                &&& one_more(before@, after@, last)
                &&& last is Button
                &&& last->Button_action == name::action_of(name@)
                &&& last->Button_label == label@
                &&& after@.names.contains(name@)
            };
            &&& call_ensures(ScreenBuilder::button, (before, name, label), after) ==> grew
                && last->Button_state is Enabled && last->Button_emphasis is Normal
            &&& call_ensures(ScreenBuilder::primary_button, (before, name, label), after) ==> grew
                && last->Button_state is Enabled && last->Button_emphasis is Primary
            &&& call_ensures(ScreenBuilder::disabled_button, (before, name, label), after) ==> grew
                && last->Button_state is Disabled && last->Button_emphasis is Normal
            &&& call_ensures(ScreenBuilder::button_with_state, (before, name, label, state), after)
                ==> grew && last->Button_state == state && last->Button_emphasis is Normal
        }),
{
    lemma_named();
}

/// A field does what its name says and holds its value and its placeholder, each
/// in its place, with no way to be emptied.
pub proof fn law_fields_say_what_was_given(
    before: ScreenBuilder,
    after: ScreenBuilder,
    name: &str,
    value: &str,
    placeholder: &str,
)
    requires
        call_ensures(ScreenBuilder::field, (before, name, value, placeholder), after),
    ensures
        one_more(
            before@,
            after@,
            NodeModel::Field {
                id: before@.fresh_id(),
                action: name::action_of(name@),
                value: value@,
                placeholder: placeholder@,
                clear: None,
            },
        ),
        after@.names.contains(name@),
{
    lemma_named();
}

// ---------------------------------------------------------------------------
// Room and measure.

/// A divider, a spacer and a filler are just that, and a bar of progress shows
/// the share it was given, up to all of it.
pub proof fn law_measures_are_what_was_given(
    before: ScreenBuilder,
    after: ScreenBuilder,
    space: Space,
    value: u8,
)
    ensures
        call_ensures(ScreenBuilder::divider, (before,), after) ==> one_more(
            before@,
            after@,
            NodeModel::Divider { id: before@.fresh_id() },
        ),
        call_ensures(ScreenBuilder::fill, (before,), after) ==> one_more(
            before@,
            after@,
            NodeModel::Flex { id: before@.fresh_id() },
        ),
        call_ensures(ScreenBuilder::spacer, (before, space), after) ==> one_more(
            before@,
            after@,
            NodeModel::Spacer { id: before@.fresh_id(), space },
        ),
        call_ensures(ScreenBuilder::progress, (before, value), after) ==> {
            &&& after@.nodes.last() matches NodeModel::Progress { id, value: share }
            &&& value <= 100 ==> share.value == value
            &&& value > 100 ==> share.value == 100
            &&& one_more(before@, after@, after@.nodes.last())
        },
{
}

/// A table has its rows and its weights.
pub proof fn law_tables_are_what_was_given(
    before: ScreenBuilder,
    after: ScreenBuilder,
    rows: Vec<TableRow>,
    weights: Vec<u16>,
)
    requires
        call_ensures(ScreenBuilder::table, (before, rows, weights), after),
    ensures
        one_more(
            before@,
            after@,
            NodeModel::Table {
                id: before@.fresh_id(),
                rows: item::models(rows@),
                weights: weights@,
            },
        ),
{
}

// ---------------------------------------------------------------------------
// Whole-screen conditions.

/// A condition is a splash with the mark and the heading of that condition over
/// what there is to say, and each of the four has its own.
pub proof fn law_conditions_are_shown(
    before: ScreenBuilder,
    after: ScreenBuilder,
    state: StandardState,
    message: &str,
)
    ensures
        ({
            let shown = |condition: StandardState|
                one_more(
                    before@,
                    after@,
                    NodeModel::Splash {
                        id: before@.fresh_id(),
                        glyph: Some(condition.mark()),
                        title: condition.heading(),
                        summary: message@,
                    },
                );
            &&& call_ensures(ScreenBuilder::standard_state, (before, state, message), after)
                ==> shown(state)
            &&& call_ensures(ScreenBuilder::empty_state, (before, message), after) ==> shown(
                StandardState::Empty,
            )
            &&& call_ensures(ScreenBuilder::offline_state, (before, message), after) ==> shown(
                StandardState::Offline,
            )
            &&& call_ensures(ScreenBuilder::permission_denied_state, (before, message), after)
                ==> shown(StandardState::PermissionDenied)
            &&& call_ensures(ScreenBuilder::error_state, (before, message), after) ==> shown(
                StandardState::Error,
            )
        }),
{
}

/// The four conditions differ in their mark and in their heading.
pub proof fn law_conditions_look_different(a: StandardState, b: StandardState)
    requires
        a != b,
    ensures
        a.mark() != b.mark(),
        a.heading() != b.heading(),
{
    reveal_strlit("Nothing here yet");
    reveal_strlit("You're offline");
    reveal_strlit("Permission needed");
    reveal_strlit("Something went wrong");
    assert("Nothing here yet"@.len() == 16);
    assert("You're offline"@.len() == 14);
    assert("Permission needed"@.len() == 17);
    assert("Something went wrong"@.len() == 20);
}

/// A confirmation is its title, its message, a line and its two answers in
/// order, each with its own name, label and state.
pub proof fn law_confirmations_are_written_out(
    before: ScreenBuilder,
    after: ScreenBuilder,
    title: &str,
    message: &str,
    primary: DialogAction,
    secondary: DialogAction,
)
    requires
        call_ensures(
            ScreenBuilder::confirmation,
            (before, title, message, primary, secondary),
            after,
        ),
    ensures
        ({
            let n = before@.nodes.len() as int;
            let nodes = after@.nodes;
            &&& nodes.len() == n + 5
            &&& nodes.take(n) == before@.nodes
            &&& nodes[n] matches NodeModel::Heading { id, text, level } && text == title@
            &&& nodes[n + 1] matches NodeModel::Text { id, text, links } && text == message@
            &&& nodes[n + 2] is Divider
            &&& nodes[n + 3] matches NodeModel::Button { id, action, label, state, emphasis }
                && action == name::action_of(primary.name@) && label == primary.label@ && state
                == primary.state && emphasis is Normal
            &&& nodes[n + 4] matches NodeModel::Button { id, action, label, state, emphasis }
                && action == name::action_of(secondary.name@) && label == secondary.label@ && state
                == secondary.state && emphasis is Normal
            &&& after@.names.contains(primary.name@)
            &&& after@.names.contains(secondary.name@)
        }),
{
    lemma_named();
    assert(after@.nodes.take(before@.nodes.len() as int) =~= before@.nodes);
}

} // verus!
