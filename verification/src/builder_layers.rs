//! Bars, columns and what covers a screen.

use vstd::prelude::*;

use crate::builder::{BuilderModel, ScreenBuilder};
use crate::builder_lists;
use crate::builder_parts;
use crate::builder_parts::times_ten;
use crate::failure::{Failure, StandardState, JOIN_WIFI};
use crate::glyph::Glyph;
use crate::item;
use crate::limits::{MAX_BAND_SLOTS, MAX_ROWS};
use crate::name;
use crate::name::action_id;
use crate::prose;
use crate::ui;
use crate::ui::{
    BandAlign, BandSlot, BandSlotModel, BarAction, BarActionModel, BarStyle, BottomAction,
    BottomActionModel, ControlState, Emphasis, NavBar, NavBarModel, Node, NodeId, NodeModel, Overlay,
    OverlayKind, OverlayModel, Row, RowLead, SlotWidth, TilePicture, TopBar, TopBarModel,
};

verus! {

// ---------------------------------------------------------------------------
// Columns.

/// What a band comes to: each column was built by somebody who was handed an
/// empty builder that carries on where the one before left off, and the nodes
/// around the band stay as they were.
pub open spec fn banded<F: FnOnce(ScreenBuilder) -> ScreenBuilder>(
    before: BuilderModel,
    align: BandAlign,
    slots: Seq<(SlotWidth, F)>,
    given: Seq<ScreenBuilder>,
    made: Seq<ScreenBuilder>,
    after: BuilderModel,
) -> bool {
    let shown = prose::at_most(slots, MAX_BAND_SLOTS as int);
    &&& given.len() == shown.len()
    &&& made.len() == shown.len()
    &&& forall|i: int|
        0 <= i < shown.len() ==> #[trigger] call_ensures(shown[i].1, (given[i],), made[i])
    &&& forall|i: int|
        0 <= i < shown.len() ==> (#[trigger] given[i])@ == carried(before, made, i).emptied()
    &&& after == if shown.len() == 0 {
        before.numbered()
    } else {
        before.with_band(align, columns(shown, made), made.last()@)
    }
}

/// What the builder of a column carries on from.
pub open spec fn carried(before: BuilderModel, made: Seq<ScreenBuilder>, i: int) -> BuilderModel {
    if i == 0 {
        before.numbered()
    } else {
        made[i - 1]@
    }
}

/// The columns of a band.
pub open spec fn columns<F: FnOnce(ScreenBuilder) -> ScreenBuilder>(
    slots: Seq<(SlotWidth, F)>,
    made: Seq<ScreenBuilder>,
) -> Seq<BandSlotModel> {
    Seq::new(
        slots.len(),
        |i: int| BandSlotModel { width: slots[i].0, nodes: made[i]@.nodes },
    )
}

impl BuilderModel {
    /// The builder with its nodes set aside.
    pub open spec fn emptied(self) -> BuilderModel {
        BuilderModel { nodes: Seq::empty(), ..self }
    }

    /// The builder with a band, once its columns were built and left a builder
    /// like `done`.
    pub open spec fn with_band(
        self,
        align: BandAlign,
        slots: Seq<BandSlotModel>,
        done: BuilderModel,
    ) -> BuilderModel {
        BuilderModel {
            nodes: self.nodes.push(NodeModel::Band { id: self.fresh_id(), align, slots }),
            ..done
        }
    }

    /// The builder with what was built in `done` laid over it.
    pub open spec fn covered(
        self,
        kind: OverlayKind,
        title: Seq<char>,
        done: BuilderModel,
    ) -> BuilderModel {
        BuilderModel {
            nodes: self.nodes,
            overlay: Some(OverlayModel { id: self.fresh_id(), kind, title, nodes: done.nodes }),
            ..done
        }
    }

    /// The builder with a title and what there is to say under it.
    pub open spec fn described(
        self,
        title: Seq<char>,
        subtitle: Option<&str>,
        facts: Seq<(Seq<char>, Seq<char>)>,
    ) -> BuilderModel {
        let headed = self.headed(title);
        let said = match subtitle {
            None => headed,
            Some(words) => headed.numbered().with(
                NodeModel::Secondary { id: headed.fresh_id(), text: words@ },
            ),
        };
        said.stating(facts)
    }

    /// The builder with a cover beside what there is to say about it.
    pub open spec fn with_hero(
        self,
        picture: TilePicture,
        width_mm: u16,
        title: Seq<char>,
        subtitle: Option<&str>,
        facts: Seq<(Seq<char>, Seq<char>)>,
    ) -> BuilderModel {
        let cover = self.numbered().emptied().picturing(picture, doubled(width_mm), true);
        let words = cover.emptied().described(title, subtitle, facts);
        self.with_band(
            BandAlign::Top,
            seq![
                BandSlotModel {
                    width: SlotWidth::Fixed(builder_parts::tenfold(width_mm)),
                    nodes: cover.nodes,
                },
                BandSlotModel { width: SlotWidth::Fill, nodes: words.nodes },
            ],
            words,
        )
    }

    /// A builder in which a button was built for each column of a band.
    pub open spec fn after_buttons(self, actions: Seq<(&str, &str)>) -> BuilderModel
        decreases actions.len(),
    {
        if actions.len() == 0 {
            self
        } else {
            self.after_buttons(actions.drop_last()).emptied().offering(
                actions.last().0@,
                actions.last().1@,
            )
        }
    }

    /// The columns of a band of buttons.
    pub open spec fn button_slots(self, actions: Seq<(&str, &str)>) -> Seq<BandSlotModel>
        decreases actions.len(),
    {
        if actions.len() == 0 {
            Seq::empty()
        } else {
            self.button_slots(actions.drop_last()).push(
                BandSlotModel { width: SlotWidth::Fill, nodes: self.after_buttons(actions).nodes },
            )
        }
    }

    /// The builder with a few buttons on one line. A line of one is just a
    /// button.
    pub open spec fn with_buttons(self, actions: Seq<(&str, &str)>) -> BuilderModel {
        let shown = prose::at_most(actions, MAX_BAND_SLOTS as int);
        if shown.len() == 0 {
            self
        } else if shown.len() == 1 {
            self.offering(shown[0].0@, shown[0].1@)
        } else {
            self.with_band(
                BandAlign::Middle,
                self.numbered().button_slots(shown),
                self.numbered().after_buttons(shown),
            )
        }
    }

    /// The builder with a button for each of a list.
    pub open spec fn offering_all(self, items: Seq<(&str, &str)>) -> BuilderModel
        decreases items.len(),
    {
        if items.len() == 0 {
            self
        } else {
            self.offering_all(items.drop_last()).offering(items.last().0@, items.last().1@)
        }
    }

    /// The builder with one more control in the bar at the top, if there is one.
    pub open spec fn with_bar_action(self, control: BarActionModel) -> BuilderModel {
        BuilderModel {
            top_bar: match self.top_bar {
                None => None,
                Some(bar) => Some(TopBarModel { actions: bar.actions.push(control), ..bar }),
            },
            ..self
        }
    }

    /// The builder with the three dots of a menu in the bar at the top.
    pub open spec fn with_dots(self, name: Seq<char>) -> BuilderModel {
        self.named(name).with_bar_action(
            BarActionModel {
                action: name::action_of(name),
                label: "More"@,
                glyph: Some(Glyph::More),
            },
        )
    }

    /// The builder with rows.
    pub open spec fn with_rows(self, rows: Seq<(&str, &str, &str, RowLead)>) -> BuilderModel {
        self.listing::<Row, (&str, &str, &str, RowLead)>(rows, "rows", MAX_ROWS).with(
            NodeModel::Rows {
                id: self.fresh_id(),
                rows: builder_lists::shown::<Row, (&str, &str, &str, RowLead)>(rows, MAX_ROWS),
            },
        )
    }

    /// The builder with the heading of a group.
    pub open spec fn with_section(self, title: Seq<char>, value: Option<&str>) -> BuilderModel {
        self.numbered().with(
            NodeModel::Section {
                id: self.fresh_id(),
                title,
                value: match value {
                    None => None,
                    Some(words) => Some(words@),
                },
            },
        )
    }

    /// The builder with a bar of places at the bottom.
    pub open spec fn with_places(
        self,
        selected: Option<usize>,
        destinations: Seq<(&str, &str)>,
    ) -> BuilderModel {
        self.listing_all::<BarAction, (&str, &str)>(destinations).bottomed(
            self.fresh_id(),
            Some(
                NavBarModel {
                    id: self.fresh_id(),
                    destinations: builder_lists::controls_of::<BarAction, (&str, &str)>(
                        destinations,
                    ),
                    selected,
                    style: BarStyle::Navigation,
                },
            ),
            None,
        )
    }

    /// The builder with a bar of verbs at the bottom.
    pub open spec fn with_verbs<E: builder_lists::Entry<BarAction>>(
        self,
        actions: Seq<E>,
    ) -> BuilderModel {
        self.listing_all::<BarAction, E>(actions).bottomed(
            self.fresh_id(),
            Some(
                NavBarModel {
                    id: self.fresh_id(),
                    destinations: builder_lists::controls_of::<BarAction, E>(actions),
                    selected: None,
                    style: BarStyle::Actions,
                },
            ),
            None,
        )
    }

    /// The builder with one control at the bottom.
    pub open spec fn with_bottom_action(
        self,
        name: Seq<char>,
        label: Seq<char>,
        glyph: Option<Glyph>,
    ) -> BuilderModel {
        self.numbered().named(name).bottomed(
            self.fresh_id(),
            None,
            Some(
                BottomActionModel {
                    id: self.fresh_id(),
                    action: BarActionModel { action: name::action_of(name), label, glyph },
                },
            ),
        )
    }

    /// The builder with a way onto a network and a way to try again, side by
    /// side. Joining comes first and is the primary of the two: without a network
    /// trying again fails the way it just did.
    pub open spec fn with_way_online(self, retry: Seq<char>) -> BuilderModel {
        let join = self.numbered().emptied().buttoned(
            JOIN_WIFI@,
            "Join Wi-Fi"@,
            ControlState::Enabled,
            Emphasis::Primary,
        );
        let again = join.emptied().buttoned(
            retry,
            "Try again"@,
            ControlState::Enabled,
            Emphasis::Normal,
        );
        self.with_band(
            BandAlign::Middle,
            seq![
                BandSlotModel { width: SlotWidth::Fill, nodes: join.nodes },
                BandSlotModel { width: SlotWidth::Fill, nodes: again.nodes },
            ],
            again,
        )
    }

    /// The builder with a failure written out, and whatever would honestly help:
    /// a way onto a network where there is none, and a way to try again where
    /// that could work.
    pub open spec fn with_failure(self, failure: Failure, retry: &str) -> BuilderModel {
        let said = self.in_state(failure.state, failure.advice@);
        if failure.state == StandardState::Offline {
            said.with_way_online(retry@)
        } else if failure.retryable {
            said.buttoned(retry@, "Try again"@, ControlState::Enabled, Emphasis::Primary)
        } else {
            said
        }
    }
}

/// Twice a length, or the longest the wire can say.
pub open spec fn doubled(value: u16) -> u16 {
    if value * 2 > u16::MAX {
        u16::MAX
    } else {
        (value * 2) as u16
    }
}

fn twice(value: u16) -> (length: u16)
    ensures
        length == doubled(value),
{
    if value > 32767 {
        u16::MAX
    } else {
        value * 2
    }
}

impl ScreenBuilder {
    /// Columns side by side, each built by somebody. No more are built than fit.
    #[must_use]
    pub fn band<F: FnOnce(ScreenBuilder) -> ScreenBuilder>(
        self,
        align: BandAlign,
        slots: Vec<(SlotWidth, F)>,
    ) -> (builder: ScreenBuilder)
        requires
            forall|i: int, builder: ScreenBuilder|
                0 <= i < slots@.len() ==> #[trigger] call_requires(slots@[i].1, (builder,)),
        ensures
            exists|given: Seq<ScreenBuilder>, made: Seq<ScreenBuilder>| #[trigger]
                banded(self@, align, slots@, given, made, builder@),
    {
        let ghost before = self@;
        let ghost shown = prose::at_most(slots@, MAX_BAND_SLOTS as int);
        let mut offered = slots;
        offered.truncate(MAX_BAND_SLOTS);
        assert(offered@ =~= shown);
        let mut builder = self;
        let id = builder.next_id();
        let outer = builder.set_aside();
        let mut built: Vec<BandSlot> = Vec::new();
        let ghost mut given: Seq<ScreenBuilder> = Seq::empty();
        let ghost mut made: Seq<ScreenBuilder> = Seq::empty();
        for slot in entries: offered
            invariant
                entries.seq() == shown,
                before == self@,
                shown == prose::at_most(slots@, MAX_BAND_SLOTS as int),
                forall|i: int, builder: ScreenBuilder|
                    0 <= i < shown.len() ==> #[trigger] call_requires(shown[i].1, (builder,)),
                given.len() == entries.index(),
                made.len() == entries.index(),
                built@.len() == entries.index(),
                forall|i: int|
                    0 <= i < given.len() ==> #[trigger] call_ensures(
                        shown[i].1,
                        (given[i],),
                        made[i],
                    ),
                forall|i: int|
                    0 <= i < given.len() ==> (#[trigger] given[i])@ == carried(
                        before,
                        made,
                        i,
                    ).emptied(),
                forall|i: int|
                    0 <= i < built@.len() ==> (#[trigger] built@[i])@ == (BandSlotModel {
                        width: shown[i].0,
                        nodes: made[i]@.nodes,
                    }),
                builder@ == (if made.len() == 0 {
                    before.numbered()
                } else {
                    made.last()@
                }).emptied(),
        {
            let ghost index = entries.index() as int;
            assert(shown[index] == slot);
            let (width, build) = slot;
            assert(call_requires(shown[index].1, (builder,)));
            proof {
                given = given.push(builder);
            }
            let mut done = build(builder);
            proof {
                made = made.push(done);
            }
            let nodes = done.set_aside();
            built.push(BandSlot::new(width, nodes));
            builder = done;
        }
        let ghost slots_built = ui::slot_models(built@);
        let fewest: bool = built.len() == 0;
        let _ = builder.put_back(outer);
        if !fewest {
            assert(slots_built =~= columns(shown, made));
            builder.add_node(Node::Band { id, align, slots: built });
        }
        assert(banded(before, align, slots@, given, made, builder@));
        builder
    }

    /// Hands the builder to somebody who carries on with it.
    #[must_use]
    pub fn compose(self, build: impl FnOnce(ScreenBuilder) -> ScreenBuilder) -> (builder:
        ScreenBuilder)
        requires
            call_requires(build, (self,)),
        ensures
            call_ensures(build, (self,), builder),
    {
        build(self)
    }

    /// Lays something over the screen that somebody builds.
    fn overlay_with(
        self,
        kind: OverlayKind,
        title: String,
        build: impl FnOnce(ScreenBuilder) -> ScreenBuilder,
    ) -> (builder: ScreenBuilder)
        requires
            forall|given: ScreenBuilder| #[trigger] call_requires(build, (given,)),
        ensures
            exists|given: ScreenBuilder, done: ScreenBuilder|
                {
                    &&& given@ == self@.numbered().emptied()
                    &&& #[trigger] call_ensures(build, (given,), done)
                    &&& builder@ == self@.covered(kind, title@, done@)
                },
    {
        let mut builder = self;
        let id = builder.next_id();
        let outer = builder.set_aside();
        let mut done = build(builder);
        let nodes = done.put_back(outer);
        done.set_overlay(Overlay { id, kind, title, nodes });
        done
    }

    /// A menu that hangs off a control. A tap anywhere else closes it.
    #[must_use]
    pub fn popover(
        self,
        anchor: &str,
        build: impl FnOnce(ScreenBuilder) -> ScreenBuilder,
    ) -> (builder: ScreenBuilder)
        requires
            forall|given: ScreenBuilder| #[trigger] call_requires(build, (given,)),
        ensures
            exists|given: ScreenBuilder, done: ScreenBuilder|
                {
                    &&& given@ == self@.numbered().emptied()
                    &&& #[trigger] call_ensures(build, (given,), done)
                    &&& builder@ == self@.covered(
                        OverlayKind::Popover { anchor: name::action_of(anchor@) },
                        Seq::empty(),
                        done@,
                    )
                },
    {
        let action = action_id(anchor);
        let title = String::new();
        assert(title@ =~= Seq::empty());
        self.overlay_with(OverlayKind::Popover { anchor: action }, title, build)
    }

    /// Something that has to be answered before anything else.
    #[must_use]
    pub fn modal(
        self,
        title: &str,
        build: impl FnOnce(ScreenBuilder) -> ScreenBuilder,
    ) -> (builder: ScreenBuilder)
        requires
            forall|given: ScreenBuilder| #[trigger] call_requires(build, (given,)),
        ensures
            exists|given: ScreenBuilder, done: ScreenBuilder|
                {
                    &&& given@ == self@.numbered().emptied()
                    &&& #[trigger] call_ensures(build, (given,), done)
                    &&& builder@ == self@.covered(OverlayKind::Modal, title@, done@)
                },
    {
        self.overlay_with(OverlayKind::Modal, title.to_owned(), build)
    }

    /// A question that has to be answered before anything else, with an answer
    /// that does it and one that does not.
    #[must_use]
    pub fn confirm(
        self,
        title: &str,
        question: &str,
        confirm: (&str, &str),
        cancel: (&str, &str),
    ) -> (builder: ScreenBuilder)
        ensures
            builder@ == self@.covered(
                OverlayKind::Modal,
                title@,
                self@.numbered().emptied().saying(question@).buttoned(
                    confirm.0@,
                    confirm.1@,
                    ControlState::Enabled,
                    Emphasis::Primary,
                ).offering(cancel.0@, cancel.1@),
            ),
    {
        let mut builder = self;
        let id = builder.next_id();
        let outer = builder.set_aside();
        let mut done = builder.text(question).primary_button(confirm.0, confirm.1).button(
            cancel.0,
            cancel.1,
        );
        let nodes = done.put_back(outer);
        done.set_overlay(Overlay { id, kind: OverlayKind::Modal, title: title.to_owned(), nodes });
        done
    }

    fn describe(self, title: &str, subtitle: Option<&str>, facts: Vec<(&str, &str)>) -> (builder:
        ScreenBuilder)
        ensures
            builder@ == self@.described(title@, subtitle, item::models(facts@)),
    {
        let headed = self.heading(title);
        let said = match subtitle {
            None => headed,
            Some(words) => headed.secondary(words),
        };
        said.facts(facts)
    }

    /// A cover beside what there is to say about it. Without a cover, the words
    /// have the whole width.
    #[must_use]
    pub fn hero(
        self,
        picture: Option<TilePicture>,
        width_mm: u16,
        title: &str,
        subtitle: Option<&str>,
        facts: Vec<(&str, &str)>,
    ) -> (builder: ScreenBuilder)
        ensures
            builder@ == match picture {
                None => self@.described(title@, subtitle, item::models(facts@)),
                Some(picture) => self@.with_hero(
                    picture,
                    width_mm,
                    title@,
                    subtitle,
                    item::models(facts@),
                ),
            },
    {
        let cover = match picture {
            None => {
                return self.describe(title, subtitle, facts);
            },
            Some(cover) => cover,
        };
        let mut builder = self;
        let id = builder.next_id();
        let outer = builder.set_aside();
        let mut drawn = builder.picture(cover, twice(width_mm));
        let first = BandSlot::new(SlotWidth::Fixed(times_ten(width_mm)), drawn.set_aside());
        let mut done = drawn.describe(title, subtitle, facts);
        let second = BandSlot::new(SlotWidth::Fill, done.put_back(outer));
        let mut slots: Vec<BandSlot> = Vec::new();
        slots.push(first);
        slots.push(second);
        assert(ui::slot_models(slots@) =~= seq![first@, second@]);
        done.add_node(Node::Band { id, align: BandAlign::Top, slots });
        done
    }

    /// A few buttons on one line.
    #[must_use]
    pub fn buttons(self, actions: Vec<(&str, &str)>) -> (builder: ScreenBuilder)
        ensures
            builder@ == self@.with_buttons(actions@),
    {
        let count: usize = if actions.len() <= MAX_BAND_SLOTS {
            actions.len()
        } else {
            MAX_BAND_SLOTS
        };
        let ghost shown = prose::at_most(actions@, MAX_BAND_SLOTS as int);
        if count == 0 {
            return self;
        }
        if count == 1 {
            return self.button(actions[0].0, actions[0].1);
        }
        let mut builder = self;
        let id = builder.next_id();
        let outer = builder.set_aside();
        let ghost start = self@.numbered();
        let mut slots: Vec<BandSlot> = Vec::new();
        let mut index: usize = 0;
        assert(ui::slot_models(slots@) =~= start.button_slots(shown.take(0)));
        while index < count
            invariant
                index <= count,
                2 <= count,
                count == shown.len(),
                count <= actions@.len(),
                shown == prose::at_most(actions@, MAX_BAND_SLOTS as int),
                start == self@.numbered(),
                builder@ == start.after_buttons(shown.take(index as int)).emptied(),
                ui::slot_models(slots@) == start.button_slots(shown.take(index as int)),
            decreases count - index,
        {
            assert(shown[index as int] == actions@[index as int]);
            assert(shown.take(index + 1).drop_last() =~= shown.take(index as int));
            let mut made = builder.button(actions[index].0, actions[index].1);
            let ghost built = made@;
            assert(built == start.after_buttons(shown.take(index + 1)));
            let nodes = made.set_aside();
            let slot = BandSlot::new(SlotWidth::Fill, nodes);
            let ghost earlier = ui::slot_models(slots@);
            slots.push(slot);
            assert(ui::slot_models(slots@) =~= earlier.push(slot@));
            builder = made;
            index = index + 1;
        }
        assert(shown.take(count as int) =~= shown);
        let _ = builder.put_back(outer);
        builder.add_node(Node::Band { id, align: BandAlign::Middle, slots });
        builder
    }

    fn way_online(self, retry: &str) -> (builder: ScreenBuilder)
        ensures
            builder@ == self@.with_way_online(retry@),
    {
        let mut builder = self;
        let id = builder.next_id();
        let outer = builder.set_aside();
        let mut join = builder.primary_button(JOIN_WIFI, "Join Wi-Fi");
        let first = BandSlot::new(SlotWidth::Fill, join.set_aside());
        let mut done = join.button(retry, "Try again");
        let second = BandSlot::new(SlotWidth::Fill, done.put_back(outer));
        let mut slots: Vec<BandSlot> = Vec::new();
        slots.push(first);
        slots.push(second);
        assert(ui::slot_models(slots@) =~= seq![first@, second@]);
        done.add_node(Node::Band { id, align: BandAlign::Middle, slots });
        done
    }

    /// A failure written out on the page, with whatever would honestly help.
    ///
    /// Advice that ends in "join Wi-Fi" is no use with only a way to repeat what
    /// just failed.
    #[must_use]
    pub fn failure_state(self, failure: Failure, retry: &str) -> (builder: ScreenBuilder)
        ensures
            builder@ == self@.with_failure(failure, retry),
    {
        let said = self.standard_state(failure.state, failure.advice);
        if failure.state == StandardState::Offline {
            said.way_online(retry)
        } else if failure.retryable {
            said.primary_button(retry, "Try again")
        } else {
            said
        }
    }

    /// A group of rows under a heading.
    #[must_use]
    pub fn section_rows(
        self,
        title: &str,
        value: Option<&str>,
        rows: Vec<(&str, &str, &str, RowLead)>,
    ) -> (builder: ScreenBuilder)
        ensures
            builder@ == self@.with_section(title@, value).with_rows(rows@),
    {
        let headed = match value {
            Some(words) => self.section_with_value(title, words),
            None => self.section(title),
        };
        headed.rows(rows)
    }

    /// The bar at the top.
    #[must_use]
    pub fn top_bar(self, title: &str) -> (builder: ScreenBuilder)
        ensures
            builder@ == (BuilderModel {
                top_bar: Some(
                    TopBarModel { id: self@.fresh_id(), title: title@, actions: Seq::empty() },
                ),
                ..self@.numbered()
            }),
    {
        let mut builder = self;
        let id = builder.next_id();
        builder.set_top_bar(Some(TopBar::new(id, title)));
        builder
    }

    fn add_bar_action(&mut self, control: BarAction)
        ensures
            final(self)@ == old(self)@.with_bar_action(control@),
    {
        match self.take_top_bar() {
            None => {},
            Some(bar) => {
                self.set_top_bar(Some(bar.with_action(control)));
            },
        }
    }

    /// One more word in the bar at the top.
    #[must_use]
    pub fn top_bar_action(self, name: &str, label: &str) -> (builder: ScreenBuilder)
        ensures
            builder@ == self@.named(name@).with_bar_action(
                BarActionModel { action: name::action_of(name@), label: label@, glyph: None },
            ),
    {
        let mut builder = self;
        let action = builder.register(name);
        builder.add_bar_action(BarAction::new(action, label));
        builder
    }

    /// One more mark in the bar at the top.
    #[must_use]
    pub fn top_bar_glyph(self, name: &str, label: &str, glyph: Glyph) -> (builder: ScreenBuilder)
        ensures
            builder@ == self@.named(name@).with_bar_action(
                BarActionModel {
                    action: name::action_of(name@),
                    label: label@,
                    glyph: Some(glyph),
                },
            ),
    {
        let mut builder = self;
        let action = builder.register(name);
        builder.add_bar_action(BarAction::new(action, label).with_glyph(glyph));
        builder
    }

    /// Three dots in the bar at the top, and the menu under them while it is
    /// open. Dots with nothing under them are not drawn.
    #[must_use]
    pub fn top_bar_overflow(self, name: &str, open: bool, items: Vec<(&str, &str)>) -> (builder:
        ScreenBuilder)
        ensures
            builder@ == if items@.len() == 0 {
                self@
            } else if !open {
                self@.with_dots(name@)
            } else {
                self@.with_dots(name@).covered(
                    OverlayKind::Popover { anchor: name::action_of(name@) },
                    Seq::empty(),
                    self@.with_dots(name@).numbered().emptied().offering_all(items@),
                )
            },
    {
        if items.len() == 0 {
            return self;
        }
        let dotted = self.top_bar_glyph(name, "More", Glyph::More);
        if !open {
            return dotted;
        }
        let ghost under = dotted@;
        let mut builder = dotted;
        let id = builder.next_id();
        let outer = builder.set_aside();
        let ghost start = builder@;
        let mut index: usize = 0;
        while index < items.len()
            invariant
                index <= items@.len(),
                builder@ == start.offering_all(items@.take(index as int)),
            decreases items@.len() - index,
        {
            assert(items@.take(index + 1).drop_last() =~= items@.take(index as int));
            builder = builder.button(items[index].0, items[index].1);
            index = index + 1;
        }
        assert(items@.take(items@.len() as int) =~= items@);
        let nodes = builder.put_back(outer);
        let title = String::new();
        assert(title@ =~= Seq::empty());
        let kind = OverlayKind::Popover { anchor: action_id(name) };
        builder.set_overlay(Overlay { id, kind, title, nodes });
        builder
    }

    /// The menu of a row while it is open.
    #[must_use]
    pub fn row_overflow(
        self,
        anchor: &str,
        open: bool,
        items: Vec<(&str, &str, Glyph)>,
    ) -> (builder: ScreenBuilder)
        ensures
            builder@ == if !open || items@.len() == 0 {
                self@
            } else {
                self@.covered(
                    OverlayKind::Popover { anchor: name::action_of(anchor@) },
                    Seq::empty(),
                    self@.numbered().emptied().with_rows(menu_rows(items@)),
                )
            },
    {
        if !open || items.len() == 0 {
            return self;
        }
        let mut rows: Vec<(&str, &str, &str, RowLead)> = Vec::new();
        let mut index: usize = 0;
        while index < items.len()
            invariant
                index <= items@.len(),
                rows@ == menu_rows(items@).take(index as int),
            decreases items@.len() - index,
        {
            rows.push((items[index].0, items[index].1, "", RowLead::Icon(items[index].2)));
            index = index + 1;
            assert(rows@ =~= menu_rows(items@).take(index as int));
        }
        assert(rows@ =~= menu_rows(items@));
        let mut builder = self;
        let id = builder.next_id();
        let outer = builder.set_aside();
        let mut done = builder.rows(rows);
        let nodes = done.put_back(outer);
        let title = String::new();
        assert(title@ =~= Seq::empty());
        let kind = OverlayKind::Popover { anchor: action_id(anchor) };
        done.set_overlay(Overlay { id, kind, title, nodes });
        done
    }

    /// A bar of places at the bottom, one of which may be where the reader is.
    #[must_use]
    pub fn nav_bar(self, selected: Option<usize>, destinations: Vec<(&str, &str)>) -> (builder:
        ScreenBuilder)
        ensures
            builder@ == self@.with_places(selected, destinations@),
    {
        let mut builder = self;
        let id = builder.next_id();
        let made = builder.make_all::<BarAction, (&str, &str)>(&destinations, destinations.len());
        builder.set_bottom(id, Some(NavBar::new(id, made, selected)), None);
        builder
    }

    /// A bar of verbs at the bottom.
    #[must_use]
    pub fn action_bar(self, actions: Vec<(&str, &str)>) -> (builder: ScreenBuilder)
        ensures
            builder@ == self@.with_verbs(actions@),
    {
        let mut builder = self;
        let id = builder.next_id();
        let made = builder.make_all::<BarAction, (&str, &str)>(&actions, actions.len());
        builder.set_bottom(id, Some(NavBar::actions(id, made)), None);
        builder
    }

    /// A bar of verbs at the bottom, some of which are marked.
    #[must_use]
    pub fn action_bar_marked(self, actions: Vec<(&str, &str, Option<Glyph>)>) -> (builder:
        ScreenBuilder)
        ensures
            builder@ == self@.with_verbs(actions@),
    {
        let mut builder = self;
        let id = builder.next_id();
        let made = builder.make_all::<BarAction, (&str, &str, Option<Glyph>)>(
            &actions,
            actions.len(),
        );
        builder.set_bottom(id, Some(NavBar::actions(id, made)), None);
        builder
    }

    /// One control at the bottom.
    #[must_use]
    pub fn bottom_action(self, name: &str, label: &str) -> (builder: ScreenBuilder)
        ensures
            builder@ == self@.with_bottom_action(name@, label@, None),
    {
        let mut builder = self;
        let id = builder.next_id();
        let action = builder.register(name);
        let control = BarAction::new(action, label);
        builder.set_bottom(id, None, Some(BottomAction::new(id, control)));
        builder
    }

    /// One marked control at the bottom.
    #[must_use]
    pub fn bottom_action_marked(self, name: &str, label: &str, glyph: Glyph) -> (builder:
        ScreenBuilder)
        ensures
            builder@ == self@.with_bottom_action(name@, label@, Some(glyph)),
    {
        let mut builder = self;
        let id = builder.next_id();
        let action = builder.register(name);
        let control = BarAction::new(action, label).with_glyph(glyph);
        builder.set_bottom(id, None, Some(BottomAction::new(id, control)));
        builder
    }
}

/// The rows of a menu.
pub open spec fn menu_rows<'a>(items: Seq<(&'a str, &'a str, Glyph)>) -> Seq<
    (&'a str, &'a str, &'a str, RowLead),
> {
    items.map_values(
        |item: (&'a str, &'a str, Glyph)| (item.0, item.1, "", RowLead::Icon(item.2)),
    )
}

// ---------------------------------------------------------------------------
// Laws.

/// There is one thing at the bottom: whatever was put there last. Putting
/// something there that was not empty before is never silent.
pub proof fn law_a_second_bottom_is_reported(
    builder: BuilderModel,
    id: NodeId,
    nav_bar: Option<NavBarModel>,
    bottom_action: Option<BottomActionModel>,
)
    ensures
        ({
            let after = builder.bottomed(id, nav_bar, bottom_action);
            &&& after.nav_bar == nav_bar
            &&& after.bottom_action == bottom_action
            &&& after.warnings.len() == builder.warnings.len() + if builder.nav_bar is Some
                || builder.bottom_action is Some {
                1int
            } else {
                0
            }
        }),
{
}

/// What is built inside a band or a cover leaves the nodes around it alone.
pub proof fn law_layers_leave_the_page_alone(
    builder: BuilderModel,
    align: BandAlign,
    slots: Seq<BandSlotModel>,
    kind: OverlayKind,
    title: Seq<char>,
    done: BuilderModel,
)
    ensures
        builder.covered(kind, title, done).nodes == builder.nodes,
        builder.with_band(align, slots, done).nodes.drop_last() == builder.nodes,
        builder.with_band(align, slots, done).warnings == done.warnings,
        builder.covered(kind, title, done).names == done.names,
{
    assert(builder.with_band(align, slots, done).nodes.drop_last() =~= builder.nodes);
}

} // verus!
