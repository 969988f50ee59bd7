//! Building screens in order, by name.

use vstd::prelude::*;

use crate::failure::StandardState;
use crate::item;
use crate::name;
use crate::name::{action_id, stable_id};
use crate::glyph::Glyph;
use crate::limits::MAX_QUOTE_DEPTH;
use crate::ui;
use crate::ui::{
    ActionId, BannerLevel, BottomAction, BottomActionModel, ControlState, Emphasis, Fold, FontHandle,
    NavBar, NavBarModel, Node, NodeId, NodeModel, Overlay, OverlayModel, PageTurns,
    ParagraphPresentation, Percent, QuoteRole, ReadingChrome, ReadingSurface, RichTextSpan, Screen,
    ScreenModel, Space, TableRow, TextScale, TilePicture, TopBar, TopBarModel,
};
use crate::wire;

verus! {

/// How bad something found in a layout is.
#[derive(Clone, Copy, Debug, PartialEq, Eq, Structural)]
pub enum DiagnosticSeverity {
    Warning,
    Error,
}

/// What was found in a layout.
#[derive(Clone, Copy, Debug, PartialEq, Eq)]
pub enum LayoutIssueKind {
    /// More was provided than can be seen.
    CollectionTruncated { collection: &'static str, provided: usize, visible: usize },
}

/// Something found in a layout.
#[derive(Clone, Copy, Debug, PartialEq, Eq)]
pub struct LayoutIssue {
    pub severity: DiagnosticSeverity,
    pub node: Option<NodeId>,
    pub kind: LayoutIssueKind,
}

/// Builds a screen with deterministic identifiers.
///
/// Node identifiers are allocated in declaration order. Action identifiers are
/// derived from their names, so an application can dispatch actions without
/// keeping a builder.
#[derive(Clone, Debug, PartialEq, Eq)]
pub struct ScreenBuilder {
    id: u32,
    next_node: u32,
    top_bar: Option<TopBar>,
    reading_surface: Option<ReadingSurface>,
    nodes: Vec<Node>,
    nav_bar: Option<NavBar>,
    bottom_action: Option<BottomAction>,
    page_turns: Option<PageTurns>,
    hold: Option<ActionId>,
    owns_back: bool,
    text_scale: Option<TextScale>,
    overlay: Option<Box<Overlay>>,
    reading: bool,
    reading_font: Option<FontHandle>,
    names: Vec<String>,
    warnings: Vec<LayoutIssue>,
}

/// What a [`ScreenBuilder`] has built.
pub struct BuilderModel {
    pub id: u32,
    /// The number of the next node.
    pub next_node: u32,
    pub top_bar: Option<TopBarModel>,
    pub reading_surface: Option<ReadingSurface>,
    pub nodes: Seq<NodeModel>,
    pub nav_bar: Option<NavBarModel>,
    pub bottom_action: Option<BottomActionModel>,
    pub page_turns: Option<PageTurns>,
    pub hold: Option<ActionId>,
    pub owns_back: bool,
    pub text_scale: Option<TextScale>,
    pub overlay: Option<OverlayModel>,
    pub reading: bool,
    pub reading_font: Option<FontHandle>,
    /// The names that controls were given, each once.
    pub names: Seq<Seq<char>>,
    pub warnings: Seq<LayoutIssue>,
}

impl View for ScreenBuilder {
    type V = BuilderModel;

    closed spec fn view(&self) -> BuilderModel {
        BuilderModel {
            id: self.id,
            next_node: self.next_node,
            top_bar: wire::model_of(self.top_bar),
            reading_surface: self.reading_surface,
            nodes: ui::node_models(self.nodes@),
            nav_bar: wire::model_of(self.nav_bar),
            bottom_action: wire::model_of(self.bottom_action),
            page_turns: self.page_turns,
            hold: self.hold,
            owns_back: self.owns_back,
            text_scale: self.text_scale,
            overlay: match self.overlay {
                None => None,
                Some(overlay) => Some((*overlay)@),
            },
            reading: self.reading,
            reading_font: self.reading_font,
            names: item::models(self.names@),
            warnings: self.warnings@,
        }
    }
}

/// The number after another. Numbers run out rather than start again.
pub open spec fn following(number: u32) -> u32 {
    if number == u32::MAX {
        number
    } else {
        (number + 1) as u32
    }
}

/// What is said of a collection of which only so many are shown.
pub open spec fn truncation(id: NodeId, collection: &'static str, visible: usize) -> LayoutIssue {
    LayoutIssue {
        severity: DiagnosticSeverity::Warning,
        node: Some(id),
        kind: LayoutIssueKind::CollectionTruncated {
            collection,
            provided: (visible + 1) as usize,
            visible,
        },
    }
}

impl BuilderModel {
    /// A builder with nothing in it.
    pub open spec fn fresh(name: Seq<char>) -> BuilderModel {
        BuilderModel {
            id: name::identifier_of(name),
            next_node: 1,
            top_bar: None,
            reading_surface: None,
            nodes: Seq::empty(),
            nav_bar: None,
            bottom_action: None,
            page_turns: None,
            hold: None,
            owns_back: false,
            text_scale: None,
            overlay: None,
            reading: false,
            reading_font: None,
            names: Seq::empty(),
            warnings: Seq::empty(),
        }
    }

    /// The screen it has built.
    pub open spec fn screen(self) -> ScreenModel {
        ScreenModel {
            id: self.id,
            top_bar: self.top_bar,
            reading_surface: self.reading_surface,
            nodes: self.nodes,
            nav_bar: self.nav_bar,
            bottom_action: self.bottom_action,
            page_turns: self.page_turns,
            hold: self.hold,
            owns_back: self.owns_back,
            text_scale: self.text_scale,
            overlay: self.overlay,
            reading: self.reading,
            reading_font: self.reading_font,
        }
    }

    /// The identity of the next node.
    pub open spec fn fresh_id(self) -> NodeId {
        NodeId(self.next_node)
    }

    /// The builder after it gave out an identity.
    pub open spec fn numbered(self) -> BuilderModel {
        BuilderModel { next_node: following(self.next_node), ..self }
    }

    /// The builder with one more node.
    pub open spec fn with(self, node: NodeModel) -> BuilderModel {
        BuilderModel { nodes: self.nodes.push(node), ..self }
    }

    /// The builder with its last node replaced.
    pub open spec fn amended(self, node: NodeModel) -> BuilderModel {
        BuilderModel { nodes: self.nodes.drop_last().push(node), ..self }
    }

    /// The builder after a control was given a name.
    pub open spec fn named(self, name: Seq<char>) -> BuilderModel {
        BuilderModel {
            names: if self.names.contains(name) {
                self.names
            } else {
                self.names.push(name)
            },
            ..self
        }
    }

    /// The builder after controls were given names, in order.
    pub open spec fn named_all(self, names: Seq<Seq<char>>) -> BuilderModel
        decreases names.len(),
    {
        if names.len() == 0 {
            self
        } else {
            self.named_all(names.drop_last()).named(names.last())
        }
    }

    /// The builder after something was found.
    pub open spec fn warned(self, issue: LayoutIssue) -> BuilderModel {
        BuilderModel { warnings: self.warnings.push(issue), ..self }
    }

    /// The builder after `provided` things were offered of which `visible` are
    /// shown, for the node `id`.
    pub open spec fn limited(
        self,
        id: NodeId,
        collection: &'static str,
        provided: int,
        visible: usize,
    ) -> BuilderModel {
        if provided > visible {
            self.warned(truncation(id, collection, visible))
        } else {
            self
        }
    }
}

/// Whether a node is a transfer that failed and can be resumed.
pub open spec fn resumable(node: NodeModel) -> bool {
    &&& node matches NodeModel::Activity { id, label, progress, cancel, transferred, failure }
    &&& failure is Some
    &&& failure->0.resumable
}

impl BuilderModel {
    /// The builder with this at the bottom and nothing else.
    pub open spec fn bottomed(
        self,
        id: NodeId,
        nav_bar: Option<NavBarModel>,
        bottom_action: Option<BottomActionModel>,
    ) -> BuilderModel {
        let warned = if self.nav_bar is Some || self.bottom_action is Some {
            self.warned(truncation(id, "bottom bar", 1))
        } else {
            self
        };
        BuilderModel { nav_bar, bottom_action, ..warned }
    }

    /// The builder with a paragraph of a thread. One set too deep to read is set
    /// as deep as can be read.
    pub open spec fn quoting(
        self,
        depth: u8,
        role: QuoteRole,
        text: Seq<char>,
        fold: Option<Fold>,
    ) -> BuilderModel {
        self.numbered().with(
            NodeModel::Quote {
                id: self.fresh_id(),
                depth: if depth > MAX_QUOTE_DEPTH {
                    MAX_QUOTE_DEPTH
                } else {
                    depth
                },
                role,
                text,
                fold,
            },
        )
    }

    /// The builder with a heading.
    pub open spec fn headed(self, text: Seq<char>) -> BuilderModel {
        self.numbered().with(NodeModel::Heading { id: self.fresh_id(), text, level: 1 })
    }

    /// The builder with a paragraph.
    pub open spec fn saying(self, text: Seq<char>) -> BuilderModel {
        self.numbered().with(
            NodeModel::Text { id: self.fresh_id(), text, links: Seq::empty() },
        )
    }

    /// The builder with a button.
    pub open spec fn buttoned(
        self,
        name: Seq<char>,
        label: Seq<char>,
        state: ControlState,
        emphasis: Emphasis,
    ) -> BuilderModel {
        self.numbered().named(name).with(
            NodeModel::Button {
                id: self.fresh_id(),
                action: name::action_of(name),
                label,
                state,
                emphasis,
            },
        )
    }

    /// The builder with an ordinary button.
    pub open spec fn offering(self, name: Seq<char>, label: Seq<char>) -> BuilderModel {
        self.buttoned(name, label, ControlState::Enabled, Emphasis::Normal)
    }

    /// The builder with a whole-screen condition.
    pub open spec fn in_state(self, state: StandardState, message: Seq<char>) -> BuilderModel {
        self.numbered().with(
            NodeModel::Splash {
                id: self.fresh_id(),
                glyph: Some(state.mark()),
                title: state.heading(),
                summary: message,
            },
        )
    }

    /// The builder with a confirmation written out on the page.
    pub open spec fn confirming(
        self,
        title: Seq<char>,
        message: Seq<char>,
        primary: DialogActionModel,
        secondary: DialogActionModel,
    ) -> BuilderModel {
        let said = self.headed(title).saying(message);
        said.numbered().with(NodeModel::Divider { id: said.fresh_id() }).buttoned(
            primary.name,
            primary.label,
            primary.state,
            Emphasis::Normal,
        ).buttoned(secondary.name, secondary.label, secondary.state, Emphasis::Normal)
    }
}

/// One action in a standard confirmation screen.
#[derive(Clone, Debug, PartialEq, Eq)]
pub struct DialogAction {
    pub name: String,
    pub label: String,
    pub state: ControlState,
}

/// What a [`DialogAction`] says.
pub struct DialogActionModel {
    pub name: Seq<char>,
    pub label: Seq<char>,
    pub state: ControlState,
}

impl View for DialogAction {
    type V = DialogActionModel;

    open spec fn view(&self) -> DialogActionModel {
        DialogActionModel { name: self.name@, label: self.label@, state: self.state }
    }
}

impl DialogAction {
    #[must_use]
    pub fn new(name: &str, label: &str) -> (action: DialogAction)
        ensures
            action@ == (DialogActionModel {
                name: name@,
                label: label@,
                state: ControlState::Enabled,
            }),
    {
        DialogAction {
            name: name.to_owned(),
            label: label.to_owned(),
            state: ControlState::Enabled,
        }
    }

    #[must_use]
    pub fn disabled(self, disabled: bool) -> (action: DialogAction)
        ensures
            action@ == (DialogActionModel {
                state: if disabled {
                    ControlState::Disabled
                } else {
                    ControlState::Enabled
                },
                ..self@
            }),
    {
        let mut action = self;
        action.state = if disabled {
            ControlState::Disabled
        } else {
            ControlState::Enabled
        };
        action
    }
}

impl ScreenBuilder {
    #[must_use]
    pub fn new(name: &str) -> (builder: ScreenBuilder)
        ensures
            builder@ == BuilderModel::fresh(name@),
    {
        let builder = ScreenBuilder {
            id: stable_id(name),
            next_node: 1,
            top_bar: None,
            reading_surface: None,
            nodes: Vec::new(),
            nav_bar: None,
            bottom_action: None,
            page_turns: None,
            hold: None,
            owns_back: false,
            text_scale: None,
            overlay: None,
            reading: false,
            reading_font: None,
            names: Vec::new(),
            warnings: Vec::new(),
        };
        assert(builder@.nodes =~= Seq::empty());
        assert(builder@.names =~= Seq::empty());
        builder
    }

    /// The screen.
    #[must_use]
    pub fn build(self) -> (screen: Screen)
        ensures
            screen@ == self@.screen(),
    {
        Screen {
            id: self.id,
            top_bar: self.top_bar,
            reading_surface: self.reading_surface,
            nodes: self.nodes,
            nav_bar: self.nav_bar,
            bottom_action: self.bottom_action,
            page_turns: self.page_turns,
            hold: self.hold,
            owns_back: self.owns_back,
            text_scale: self.text_scale,
            overlay: self.overlay,
            reading: self.reading,
            reading_font: self.reading_font,
        }
    }

    /// What was found while building.
    #[must_use]
    pub fn warnings(&self) -> (warnings: &[LayoutIssue])
        ensures
            warnings@ == self@.warnings,
    {
        self.warnings.as_slice()
    }

    /// The screen, unless something was found while building it.
    pub fn build_checked(self) -> (result: Result<Screen, Vec<LayoutIssue>>)
        ensures
            match result {
                Ok(screen) => self@.warnings.len() == 0 && screen@ == self@.screen(),
                Err(warnings) => self@.warnings.len() > 0 && warnings@ == self@.warnings,
            },
    {
        if self.warnings.len() == 0 {
            Ok(self.build())
        } else {
            Err(self.warnings)
        }
    }

    /// The action of a name that some control was given.
    #[must_use]
    pub fn action(&self, name: &str) -> (action: Option<ActionId>)
        ensures
            action == if self@.names.contains(name@) {
                Some(name::action_of(name@))
            } else {
                None
            },
    {
        if self.knows(name) {
            Some(action_id(name))
        } else {
            None
        }
    }

    fn knows(&self, name: &str) -> (known: bool)
        ensures
            known == self@.names.contains(name@),
    {
        let sought = name.to_owned();
        let mut index: usize = 0;
        while index < self.names.len()
            invariant
                index <= self.names@.len(),
                sought@ == name@,
                forall|i: int| 0 <= i < index ==> (#[trigger] self.names@[i])@ != name@,
            decreases self.names@.len() - index,
        {
            if self.names[index] == sought {
                assert(self@.names[index as int] == name@);
                return true;
            }
            index = index + 1;
        }
        assert forall|i: int| 0 <= i < self@.names.len() implies self@.names[i] != name@ by {
            assert(self@.names[i] == self.names@[i]@);
        }
        false
    }

    /// Gives out the identity of the next node.
    pub(crate) fn next_id(&mut self) -> (id: NodeId)
        ensures
            id == old(self)@.fresh_id(),
            final(self)@ == old(self)@.numbered(),
    {
        let id = NodeId(self.next_node);
        self.next_node = self.next_node.saturating_add(1);
        id
    }

    /// Gives a control a name.
    pub(crate) fn register(&mut self, name: &str) -> (action: ActionId)
        ensures
            action == name::action_of(name@),
            final(self)@ == old(self)@.named(name@),
    {
        if !self.knows(name) {
            let copy = name.to_owned();
            self.names.push(copy);
            assert(self@.names =~= old(self)@.names.push(name@));
        }
        action_id(name)
    }

    /// Adds a node.
    pub(crate) fn add_node(&mut self, node: Node)
        ensures
            final(self)@ == old(self)@.with(node@),
    {
        self.nodes.push(node);
        assert(self@.nodes =~= old(self)@.nodes.push(node@));
    }

    /// Takes the last node off.
    pub(crate) fn take_last(&mut self) -> (node: Option<Node>)
        ensures
            old(self)@.nodes.len() == 0 ==> node is None && final(self)@ == old(self)@,
            old(self)@.nodes.len() > 0 ==> node is Some && node->0@ == old(self)@.nodes.last()
                && final(self)@ == (BuilderModel {
                nodes: old(self)@.nodes.drop_last(),
                ..old(self)@
            }),
    {
        let node = self.nodes.pop();
        proof {
            if old(self)@.nodes.len() > 0 {
                assert(self@.nodes =~= old(self)@.nodes.drop_last());
            }
        }
        node
    }

    /// Whether the last node is a transfer that failed and can be resumed.
    pub(crate) fn can_resume(&self) -> (can: bool)
        ensures
            can == (self@.nodes.len() > 0 && resumable(self@.nodes.last())),
    {
        let length: usize = self.nodes.len();
        if length == 0 {
            return false;
        }
        assert(self@.nodes.last() == self.nodes@[length - 1]@);
        match &self.nodes[length - 1] {
            Node::Activity { failure, .. } => match failure {
                None => false,
                Some(failure) => failure.resumable,
            },
            _ => false,
        }
    }

    /// Sets the nodes aside, to build somewhere else.
    pub(crate) fn set_aside(&mut self) -> (nodes: Vec<Node>)
        ensures
            ui::node_models(nodes@) == old(self)@.nodes,
            final(self)@ == (BuilderModel { nodes: Seq::empty(), ..old(self)@ }),
    {
        let mut nodes: Vec<Node> = Vec::new();
        std::mem::swap(&mut nodes, &mut self.nodes);
        assert(self@.nodes =~= Seq::empty());
        nodes
    }

    /// Puts nodes back that were set aside, in place of what was built since.
    pub(crate) fn put_back(&mut self, nodes: Vec<Node>) -> (built: Vec<Node>)
        ensures
            ui::node_models(built@) == old(self)@.nodes,
            final(self)@ == (BuilderModel { nodes: ui::node_models(nodes@), ..old(self)@ }),
    {
        let mut built = nodes;
        std::mem::swap(&mut built, &mut self.nodes);
        built
    }

    /// Says that more was offered than is shown.
    pub(crate) fn warn_limit(
        &mut self,
        id: NodeId,
        collection: &'static str,
        provided: usize,
        visible: usize,
    )
        requires
            visible < usize::MAX,
        ensures
            final(self)@ == old(self)@.limited(id, collection, provided as int, visible),
    {
        if provided > visible {
            self.warnings.push(
                LayoutIssue {
                    severity: DiagnosticSeverity::Warning,
                    node: Some(id),
                    kind: LayoutIssueKind::CollectionTruncated {
                        collection,
                        provided: visible + 1,
                        visible,
                    },
                },
            );
        }
    }

    /// Replaces the bar at the top.
    pub(crate) fn set_top_bar(&mut self, bar: Option<TopBar>)
        ensures
            final(self)@ == (BuilderModel { top_bar: wire::model_of(bar), ..old(self)@ }),
    {
        self.top_bar = bar;
    }

    /// Takes the bar at the top off.
    pub(crate) fn take_top_bar(&mut self) -> (bar: Option<TopBar>)
        ensures
            wire::model_of(bar) == old(self)@.top_bar,
            final(self)@ == (BuilderModel { top_bar: None, ..old(self)@ }),
    {
        let mut bar: Option<TopBar> = None;
        std::mem::swap(&mut bar, &mut self.top_bar);
        bar
    }

    /// Replaces what is at the bottom, saying so if there was something there:
    /// the panel has one bottom band.
    pub(crate) fn set_bottom(
        &mut self,
        id: NodeId,
        nav_bar: Option<NavBar>,
        bottom_action: Option<BottomAction>,
    )
        ensures
            final(self)@ == old(self)@.bottomed(
                id,
                wire::model_of(nav_bar),
                wire::model_of(bottom_action),
            ),
    {
        if self.nav_bar.is_some() || self.bottom_action.is_some() {
            self.warnings.push(
                LayoutIssue {
                    severity: DiagnosticSeverity::Warning,
                    node: Some(id),
                    kind: LayoutIssueKind::CollectionTruncated {
                        collection: "bottom bar",
                        provided: 2,
                        visible: 1,
                    },
                },
            );
        }
        self.nav_bar = nav_bar;
        self.bottom_action = bottom_action;
    }

    /// Lays something over the screen.
    pub(crate) fn set_overlay(&mut self, overlay: Overlay)
        ensures
            final(self)@ == (BuilderModel { overlay: Some(overlay@), ..old(self)@ }),
    {
        self.overlay = Some(Box::new(overlay));
    }

    #[must_use]
    pub fn owns_back(self, owns_back: bool) -> (builder: ScreenBuilder)
        ensures
            builder@ == (BuilderModel { owns_back, ..self@ }),
    {
        let mut builder = self;
        builder.owns_back = owns_back;
        builder
    }

    #[must_use]
    pub fn text_scale(self, scale: TextScale) -> (builder: ScreenBuilder)
        ensures
            builder@ == (BuilderModel { text_scale: Some(scale), ..self@ }),
    {
        let mut builder = self;
        builder.text_scale = Some(scale);
        builder
    }

    #[must_use]
    pub fn reading(self, reading: bool) -> (builder: ScreenBuilder)
        ensures
            builder@ == (BuilderModel { reading, ..self@ }),
    {
        let mut builder = self;
        builder.reading = reading;
        builder
    }

    #[must_use]
    pub fn reading_font(self, font: FontHandle) -> (builder: ScreenBuilder)
        ensures
            builder@ == (BuilderModel { reading_font: Some(font), ..self@ }),
    {
        let mut builder = self;
        builder.reading_font = Some(font);
        builder
    }

    #[must_use]
    pub fn reading_surface(self, picture: TilePicture, chrome: ReadingChrome) -> (builder:
        ScreenBuilder)
        ensures
            builder@ == (BuilderModel {
                reading_surface: Some(ReadingSurface { id: self@.fresh_id(), picture, chrome }),
                ..self@.numbered()
            }),
    {
        let mut builder = self;
        let id = builder.next_id();
        builder.reading_surface = Some(ReadingSurface::new(id, picture, chrome));
        builder
    }

    /// What the sides of the content area do.
    #[must_use]
    pub fn page_turns(self, previous: &str, next: &str) -> (builder: ScreenBuilder)
        ensures
            builder@ == (BuilderModel {
                page_turns: Some(
                    PageTurns {
                        previous: name::action_of(previous@),
                        next: name::action_of(next@),
                        menu: None,
                        position: None,
                    },
                ),
                ..self@.named(previous@).named(next@)
            }),
    {
        let mut builder = self;
        let back = builder.register(previous);
        let onwards = builder.register(next);
        builder.page_turns = Some(PageTurns::new(back, onwards));
        builder
    }

    /// Which page this is, for a screen whose pages turn.
    #[must_use]
    pub fn page_position(self, page: u16, of: u16) -> (builder: ScreenBuilder)
        ensures
            builder@ == (BuilderModel {
                page_turns: match self@.page_turns {
                    None => None,
                    Some(turns) => Some(PageTurns { position: Some((page, of)), ..turns }),
                },
                ..self@
            }),
    {
        let mut builder = self;
        builder.page_turns = match builder.page_turns {
            None => None,
            Some(turns) => Some(turns.with_position(page, of)),
        };
        builder
    }

    /// What the middle of the page does, for a screen whose pages turn.
    #[must_use]
    pub fn reading_menu(self, menu: &str) -> (builder: ScreenBuilder)
        ensures
            builder@ == (BuilderModel {
                page_turns: match self@.page_turns {
                    None => None,
                    Some(turns) => Some(
                        PageTurns { menu: Some(name::action_of(menu@)), ..turns },
                    ),
                },
                ..self@.named(menu@)
            }),
    {
        let mut builder = self;
        let action = builder.register(menu);
        builder.page_turns = match builder.page_turns {
            None => None,
            Some(turns) => Some(turns.with_menu(action)),
        };
        builder
    }

    /// What holding the content does.
    #[must_use]
    pub fn hold(self, action: &str) -> (builder: ScreenBuilder)
        ensures
            builder@ == (BuilderModel {
                hold: Some(name::action_of(action@)),
                ..self@.named(action@)
            }),
    {
        let mut builder = self;
        let held = builder.register(action);
        builder.hold = Some(held);
        builder
    }
}

impl ScreenBuilder {
    #[must_use]
    pub fn heading_at_level(self, level: u8, text: &str) -> (builder: ScreenBuilder)
        ensures
            builder@ == self@.numbered().with(
                NodeModel::Heading {
                    id: self@.fresh_id(),
                    text: text@,
                    level: if level == 0 { 1 } else { level },
                },
            ),
    {
        let mut builder = self;
        let id = builder.next_id();
        builder.add_node(
            Node::Heading {
                id,
                text: text.to_owned(),
                level: if level == 0 { 1 } else { level },
            },
        );
        builder
    }

    #[must_use]
    pub fn text(self, text: &str) -> (builder: ScreenBuilder)
        ensures
            builder@ == self@.numbered().with(
                NodeModel::Text {
                    id: self@.fresh_id(),
                    text: text@,
                    links: Seq::empty(),
                },
            ),
    {
        let mut builder = self;
        let id = builder.next_id();
        builder.add_node(Node::Text { id, text: text.to_owned(), links: Vec::new() });
        builder
    }

    #[must_use]
    pub fn rich_text(
        self,
        text: &str,
        spans: Vec<RichTextSpan>,
        presentation: ParagraphPresentation,
    ) -> (builder: ScreenBuilder)
        ensures
            builder@ == self@.numbered().with(
                NodeModel::RichText {
                    id: self@.fresh_id(),
                    text: text@,
                    spans: spans@,
                    links: Seq::empty(),
                    presentation,
                    selection: None,
                    formulae: Seq::empty(),
                },
            ),
    {
        let mut builder = self;
        let id = builder.next_id();
        builder.add_node(
            Node::RichText {
                id,
                text: text.to_owned(),
                spans,
                links: Vec::new(),
                presentation,
                selection: None,
                formulae: Vec::new(),
            },
        );
        builder
    }

    #[must_use]
    pub fn secondary(self, text: &str) -> (builder: ScreenBuilder)
        ensures
            builder@ == self@.numbered().with(
                NodeModel::Secondary {
                    id: self@.fresh_id(),
                    text: text@,
                },
            ),
    {
        let mut builder = self;
        let id = builder.next_id();
        builder.add_node(Node::Secondary { id, text: text.to_owned() });
        builder
    }

    /// A heading over a group.
    #[must_use]
    pub fn section(self, title: &str) -> (builder: ScreenBuilder)
        ensures
            builder@ == self@.numbered().with(
                NodeModel::Section {
                    id: self@.fresh_id(),
                    title: title@,
                    value: None,
                },
            ),
    {
        let mut builder = self;
        let id = builder.next_id();
        builder.add_node(Node::Section { id, title: title.to_owned(), value: None });
        builder
    }

    /// A heading over a group, with a word about it at the other end.
    #[must_use]
    pub fn section_with_value(self, title: &str, value: &str) -> (builder: ScreenBuilder)
        ensures
            builder@ == self@.numbered().with(
                NodeModel::Section {
                    id: self@.fresh_id(),
                    title: title@,
                    value: Some(value@),
                },
            ),
    {
        let mut builder = self;
        let id = builder.next_id();
        builder.add_node(
            Node::Section {
                id,
                title: title.to_owned(),
                value: Some(value.to_owned()),
            },
        );
        builder
    }

    /// The one control a screen is for.
    #[must_use]
    pub fn primary_button(self, name: &str, label: &str) -> (builder: ScreenBuilder)
        ensures
            builder@ == self@.numbered().named(name@).with(
                NodeModel::Button {
                    id: self@.fresh_id(),
                    action: name::action_of(name@),
                    label: label@,
                    state: ControlState::Enabled,
                    emphasis: Emphasis::Primary,
                },
            ),
    {
        let mut builder = self;
        let id = builder.next_id();
        let name_action = builder.register(name);
        builder.add_node(
            Node::Button {
                id,
                action: name_action,
                label: label.to_owned(),
                state: ControlState::Enabled,
                emphasis: Emphasis::Primary,
            },
        );
        builder
    }

    #[must_use]
    pub fn button_with_state(
        self,
        name: &str,
        label: &str,
        state: ControlState,
    ) -> (builder: ScreenBuilder)
        ensures
            builder@ == self@.numbered().named(name@).with(
                NodeModel::Button {
                    id: self@.fresh_id(),
                    action: name::action_of(name@),
                    label: label@,
                    state,
                    emphasis: Emphasis::Normal,
                },
            ),
    {
        let mut builder = self;
        let id = builder.next_id();
        let name_action = builder.register(name);
        builder.add_node(
            Node::Button {
                id,
                action: name_action,
                label: label.to_owned(),
                state,
                emphasis: Emphasis::Normal,
            },
        );
        builder
    }

    #[must_use]
    pub fn divider(self) -> (builder: ScreenBuilder)
        ensures
            builder@ == self@.numbered().with(NodeModel::Divider { id: self@.fresh_id() }),
    {
        let mut builder = self;
        let id = builder.next_id();
        builder.add_node(Node::Divider { id });
        builder
    }

    #[must_use]
    pub fn spacer(self, space: Space) -> (builder: ScreenBuilder)
        ensures
            builder@ == self@.numbered().with(
                NodeModel::Spacer {
                    id: self@.fresh_id(),
                    space,
                },
            ),
    {
        let mut builder = self;
        let id = builder.next_id();
        builder.add_node(Node::Spacer { id, space });
        builder
    }

    /// Takes up the room that is left.
    #[must_use]
    pub fn fill(self) -> (builder: ScreenBuilder)
        ensures
            builder@ == self@.numbered().with(NodeModel::Flex { id: self@.fresh_id() }),
    {
        let mut builder = self;
        let id = builder.next_id();
        builder.add_node(Node::Flex { id });
        builder
    }

    #[must_use]
    pub fn progress(self, value: u8) -> (builder: ScreenBuilder)
        ensures
            builder@ == self@.numbered().with(
                NodeModel::Progress {
                    id: self@.fresh_id(),
                    value: Percent::nearest(value),
                },
            ),
    {
        let mut builder = self;
        let id = builder.next_id();
        builder.add_node(Node::Progress { id, value: Percent::new(value) });
        builder
    }

    #[must_use]
    pub fn table(self, rows: Vec<TableRow>, weights: Vec<u16>) -> (builder: ScreenBuilder)
        ensures
            builder@ == self@.numbered().with(
                NodeModel::Table {
                    id: self@.fresh_id(),
                    rows: item::models(rows@),
                    weights: weights@,
                },
            ),
    {
        let mut builder = self;
        let id = builder.next_id();
        builder.add_node(Node::Table { id, rows, weights });
        builder
    }

    #[must_use]
    pub fn banner(self, level: BannerLevel, text: &str) -> (builder: ScreenBuilder)
        ensures
            builder@ == self@.numbered().with(
                NodeModel::Banner {
                    id: self@.fresh_id(),
                    level,
                    text: text@,
                },
            ),
    {
        let mut builder = self;
        let id = builder.next_id();
        builder.add_node(Node::Banner { id, level, text: text.to_owned() });
        builder
    }

    /// Lines that are on their way.
    #[must_use]
    pub fn skeleton(self, lines: u8) -> (builder: ScreenBuilder)
        ensures
            builder@ == self@.numbered().with(
                NodeModel::Skeleton {
                    id: self@.fresh_id(),
                    lines,
                },
            ),
    {
        let mut builder = self;
        let id = builder.next_id();
        builder.add_node(Node::Skeleton { id, lines });
        builder
    }

    #[must_use]
    pub fn splash(
        self,
        glyph: Option<Glyph>,
        title: &str,
        summary: &str,
    ) -> (builder: ScreenBuilder)
        ensures
            builder@ == self@.numbered().with(
                NodeModel::Splash {
                    id: self@.fresh_id(),
                    glyph,
                    title: title@,
                    summary: summary@,
                },
            ),
    {
        let mut builder = self;
        let id = builder.next_id();
        builder.add_node(
            Node::Splash {
                id,
                glyph,
                title: title.to_owned(),
                summary: summary.to_owned(),
            },
        );
        builder
    }

    /// A place to type.
    #[must_use]
    pub fn field(self, name: &str, value: &str, placeholder: &str) -> (builder: ScreenBuilder)
        ensures
            builder@ == self@.numbered().named(name@).with(
                NodeModel::Field {
                    id: self@.fresh_id(),
                    action: name::action_of(name@),
                    value: value@,
                    placeholder: placeholder@,
                    clear: None,
                },
            ),
    {
        let mut builder = self;
        let id = builder.next_id();
        let name_action = builder.register(name);
        builder.add_node(
            Node::Field {
                id,
                action: name_action,
                value: value.to_owned(),
                placeholder: placeholder.to_owned(),
                clear: None,
            },
        );
        builder
    }

    fn quote_full(self, depth: u8, role: QuoteRole, text: &str, fold: Option<Fold>) -> (builder:
        ScreenBuilder)
        ensures
            builder@ == self@.quoting(depth, role, text@, fold),
    {
        let mut builder = self;
        let id = builder.next_id();
        let nearest: u8 = if depth > MAX_QUOTE_DEPTH {
            MAX_QUOTE_DEPTH
        } else {
            depth
        };
        builder.add_node(Node::Quote { id, depth: nearest, role, text: text.to_owned(), fold });
        builder
    }

    #[must_use]
    pub fn heading(self, text: &str) -> (builder: ScreenBuilder)
        ensures
            builder@ == self@.headed(text@),
    {
        self.heading_at_level(1, text)
    }

    #[must_use]
    pub fn button(self, name: &str, label: &str) -> (builder: ScreenBuilder)
        ensures
            builder@ == self@.offering(name@, label@),
    {
        self.button_with_state(name, label, ControlState::Enabled)
    }

    #[must_use]
    pub fn disabled_button(self, name: &str, label: &str) -> (builder: ScreenBuilder)
        ensures
            builder@ == self@.buttoned(name@, label@, ControlState::Disabled, Emphasis::Normal),
    {
        self.button_with_state(name, label, ControlState::Disabled)
    }

    /// A whole-screen condition.
    #[must_use]
    pub fn standard_state(self, state: StandardState, message: &str) -> (builder: ScreenBuilder)
        ensures
            builder@ == self@.in_state(state, message@),
    {
        self.splash(Some(state.glyph()), state.title(), message)
    }

    #[must_use]
    pub fn empty_state(self, message: &str) -> (builder: ScreenBuilder)
        ensures
            builder@ == self@.in_state(StandardState::Empty, message@),
    {
        self.standard_state(StandardState::Empty, message)
    }

    #[must_use]
    pub fn offline_state(self, message: &str) -> (builder: ScreenBuilder)
        ensures
            builder@ == self@.in_state(StandardState::Offline, message@),
    {
        self.standard_state(StandardState::Offline, message)
    }

    #[must_use]
    pub fn permission_denied_state(self, message: &str) -> (builder: ScreenBuilder)
        ensures
            builder@ == self@.in_state(StandardState::PermissionDenied, message@),
    {
        self.standard_state(StandardState::PermissionDenied, message)
    }

    #[must_use]
    pub fn error_state(self, message: &str) -> (builder: ScreenBuilder)
        ensures
            builder@ == self@.in_state(StandardState::Error, message@),
    {
        self.standard_state(StandardState::Error, message)
    }

    /// A confirmation written out on the page.
    #[must_use]
    pub fn confirmation(
        self,
        title: &str,
        message: &str,
        primary: DialogAction,
        secondary: DialogAction,
    ) -> (builder: ScreenBuilder)
        ensures
            builder@ == self@.confirming(title@, message@, primary@, secondary@),
    {
        self.heading(title).text(message).divider().button_with_state(
            primary.name.as_str(),
            primary.label.as_str(),
            primary.state,
        ).button_with_state(secondary.name.as_str(), secondary.label.as_str(), secondary.state)
    }

    /// A paragraph of a thread.
    #[must_use]
    pub fn quote(self, depth: u8, text: &str) -> (builder: ScreenBuilder)
        ensures
            builder@ == self@.quoting(depth, QuoteRole::Body, text@, None),
    {
        self.quote_full(depth, QuoteRole::Body, text, None)
    }

    /// Who said what follows.
    #[must_use]
    pub fn byline(self, depth: u8, text: &str) -> (builder: ScreenBuilder)
        ensures
            builder@ == self@.quoting(depth, QuoteRole::Byline, text@, None),
    {
        self.quote_full(depth, QuoteRole::Byline, text, None)
    }

    #[must_use]
    pub fn quote_as(self, depth: u8, role: QuoteRole, text: &str) -> (builder: ScreenBuilder)
        ensures
            builder@ == self@.quoting(depth, role, text@, None),
    {
        self.quote_full(depth, role, text, None)
    }

    /// Who said what follows, with a way to fold it away.
    #[must_use]
    pub fn folding_byline(
        self,
        depth: u8,
        text: &str,
        name: &str,
        collapsed: bool,
        hidden: u16,
    ) -> (builder: ScreenBuilder)
        ensures
            builder@ == self@.quoting(
                depth,
                QuoteRole::Byline,
                text@,
                Some(Fold { action: name::action_of(name@), collapsed, hidden }),
            ),
    {
        let action = action_id(name);
        let fold = Some(Fold { action, collapsed, hidden });
        self.quote_full(depth, QuoteRole::Byline, text, fold)
    }
}

// ---------------------------------------------------------------------------
// Laws.

/// The identity of a node.
pub open spec fn id_of(node: NodeModel) -> NodeId {
    match node {
        NodeModel::Heading { id, .. } => id,
        NodeModel::Text { id, .. } => id,
        NodeModel::RichText { id, .. } => id,
        NodeModel::Secondary { id, .. } => id,
        NodeModel::Section { id, .. } => id,
        NodeModel::Quote { id, .. } => id,
        NodeModel::Button { id, .. } => id,
        NodeModel::Card { id, .. } => id,
        NodeModel::Field { id, .. } => id,
        NodeModel::Chips { id, .. } => id,
        NodeModel::Tabs { id, .. } => id,
        NodeModel::Facts { id, .. } => id,
        NodeModel::Band { id, .. } => id,
        NodeModel::Divider { id, .. } => id,
        NodeModel::Flex { id, .. } => id,
        NodeModel::Spacer { id, .. } => id,
        NodeModel::Progress { id, .. } => id,
        NodeModel::PagedList { id, .. } => id,
        NodeModel::Grid { id, .. } => id,
        NodeModel::Rows { id, .. } => id,
        NodeModel::TileGrid { id, .. } => id,
        NodeModel::Picture { id, .. } => id,
        NodeModel::Table { id, .. } => id,
        NodeModel::Stepper { id, .. } => id,
        NodeModel::Choice { id, .. } => id,
        NodeModel::Banner { id, .. } => id,
        NodeModel::Skeleton { id, .. } => id,
        NodeModel::Splash { id, .. } => id,
        NodeModel::Activity { id, .. } => id,
        NodeModel::Terminal { id, .. } => id,
    }
}

impl Node {
    /// The identity of this node.
    #[must_use]
    pub fn id(&self) -> (id: NodeId)
        ensures
            id == id_of(self@),
    {
        match self {
            Node::Heading { id, .. } => *id,
            Node::Text { id, .. } => *id,
            Node::RichText { id, .. } => *id,
            Node::Secondary { id, .. } => *id,
            Node::Section { id, .. } => *id,
            Node::Quote { id, .. } => *id,
            Node::Button { id, .. } => *id,
            Node::Card { id, .. } => *id,
            Node::Field { id, .. } => *id,
            Node::Chips { id, .. } => *id,
            Node::Tabs { id, .. } => *id,
            Node::Facts { id, .. } => *id,
            Node::Band { id, .. } => *id,
            Node::Divider { id, .. } => *id,
            Node::Flex { id, .. } => *id,
            Node::Spacer { id, .. } => *id,
            Node::Progress { id, .. } => *id,
            Node::PagedList { id, .. } => *id,
            Node::Grid { id, .. } => *id,
            Node::Rows { id, .. } => *id,
            Node::TileGrid { id, .. } => *id,
            Node::Picture { id, .. } => *id,
            Node::Table { id, .. } => *id,
            Node::Stepper { id, .. } => *id,
            Node::Choice { id, .. } => *id,
            Node::Banner { id, .. } => *id,
            Node::Skeleton { id, .. } => *id,
            Node::Splash { id, .. } => *id,
            Node::Activity { id, .. } => *id,
            Node::Terminal { id, .. } => *id,
        }
    }
}

/// The nodes of a builder have identities that were given out, in the order
/// they were declared in.
pub open spec fn in_order(builder: BuilderModel) -> bool {
    &&& forall|i: int|
        0 <= i < builder.nodes.len() ==> id_of(#[trigger] builder.nodes[i]).0 < builder.next_node
    &&& forall|i: int, j: int|
        0 <= i < j < builder.nodes.len() ==> id_of(#[trigger] builder.nodes[i]).0 < id_of(
            #[trigger] builder.nodes[j],
        ).0
}

/// Identities are given out in declaration order, and none twice while they
/// last.
pub proof fn law_nodes_are_numbered_in_order(
    name: Seq<char>,
    builder: BuilderModel,
    node: NodeModel,
    control: Seq<char>,
)
    requires
        in_order(builder),
        builder.next_node < u32::MAX,
        id_of(node) == builder.fresh_id(),
    ensures
        in_order(BuilderModel::fresh(name)),
        in_order(builder.numbered().with(node)),
        in_order(builder.numbered()),
        in_order(builder.named(control)),
{
}

/// However often a control is named, its name is kept once, and naming one
/// control forgets no other.
pub proof fn law_names_are_kept_once(builder: BuilderModel, first: Seq<char>, second: Seq<char>)
    requires
        builder.names.no_duplicates(),
    ensures
        builder.named(first).names.no_duplicates(),
        builder.named(first).named(first) == builder.named(first),
        builder.named(first).names.contains(first),
        builder.names.contains(second) ==> builder.named(first).names.contains(second),
{
    let named = builder.named(first);
    if !builder.names.contains(first) {
        assert(named.names.last() == first);
    }
    if builder.names.contains(second) {
        let i = choose|i: int| 0 <= i < builder.names.len() && builder.names[i] == second;
        assert(named.names[i] == second);
    }
}

} // verus!
