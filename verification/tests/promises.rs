use kobo::area::{ProseArea, Strips};
use kobo::builder::ScreenBuilder;
use kobo::command::Command;
use kobo::context::Context;
use kobo::device::AppInfo;
use kobo::failure::Failure;
use kobo::glyph::Glyph;
use kobo::name::action_id;
use kobo::runner::{AppRunner, KoboApp};
use kobo::task::TaskError;
use kobo::ui::{
    ActionId, BandAlign, BandSlot, BarAction, Cell, Chip, ControlState, Emphasis, Fold, Node, NodeId, ParagraphPresentation, PictureHandle,
    QuoteRole, Row, RowLead, TextLink, TextSelection, Tile, TilePicture, TileShape,
};

struct Herald;

impl KoboApp for Herald {
    fn on_start(&mut self, context: &mut Context) {
        context.launch("start");
    }

    fn on_action(&mut self, context: &mut Context, _action: ActionId) {
        context.launch("action");
    }

    fn on_resume(&mut self, context: &mut Context) {
        context.launch("resume");
    }

    fn on_suspend(&mut self, context: &mut Context) {
        context.launch("suspend");
    }

    fn on_scheduled_wake(&mut self, context: &mut Context) {
        context.launch("wake");
    }
}

struct Quiet;

impl KoboApp for Quiet {
    fn on_start(&mut self, _context: &mut Context) {}

    fn on_action(&mut self, _context: &mut Context, _action: ActionId) {}
}

fn launching(name: &str) -> Vec<Command> {
    vec![Command::Launch(name.into())]
}

#[test]
fn each_callback_is_run_by_its_own_event() {
    let mut runner = AppRunner::new(Herald);
    assert_eq!(runner.start(), launching("start"));
    assert_eq!(runner.start(), Vec::new());
    assert_eq!(runner.resume(), launching("resume"));
    assert_eq!(runner.suspend(), launching("suspend"));
    assert_eq!(runner.scheduled_wake(), launching("wake"));
    assert_eq!(runner.action(ActionId(4)), launching("action"));
}

#[test]
fn an_application_that_says_nothing_of_an_event_ignores_it() {
    let mut runner = AppRunner::new(Quiet);
    assert!(runner.resume().is_empty());
    assert!(runner.suspend().is_empty());
    assert!(runner.scheduled_wake().is_empty());
    assert!(runner.cover_changed(true).is_empty());
    assert!(runner.page_turn(true).is_empty());
    assert!(runner.exit().is_empty());
}

#[test]
fn there_is_always_a_line_of_room() {
    for height in [i32::MIN, -1, 0, 1, 100, i32::MAX] {
        let area = ProseArea {
            width: 1,
            height,
            gap: 0,
        };
        for position in [0, 50, i32::MAX] {
            let strips = Strips {
                status: 60,
                position,
            };
            let screen = area.screen_area(strips).height;
            let page = area.paged_area(strips).height;
            assert!(1 <= page && page <= screen);
        }
    }
}

#[test]
fn nodes_are_numbered_in_order_and_names_are_kept_once() {
    let builder = ScreenBuilder::new("page")
        .heading("One")
        .button("go", "Two")
        .button("go", "Three")
        .divider();
    assert_eq!(builder.action("go"), Some(action_id("go")));
    assert_eq!(builder.action("stay"), None);
    let ids: Vec<NodeId> = builder.build().nodes.iter().map(Node::id).collect();
    assert_eq!(ids, vec![NodeId(1), NodeId(2), NodeId(3), NodeId(4)]);
}

#[test]
fn each_part_of_a_page_is_the_node_it_is_named_for() {
    let cover = TilePicture {
        handle: PictureHandle(7),
        source: (30, 50),
    };
    let nodes = ScreenBuilder::new("page")
        .skeleton(3)
        .disabled_button("later", "Later")
        .empty_state("No books")
        .permission_denied_state("Ask again")
        .error_state("Try again")
        .byline(1, "Ann")
        .quote_as(2, QuoteRole::Body, "Yes")
        .folding_byline(3, "Ben", "fold", true, 9)
        .board(3, vec![("x", "X", Some(Glyph::Circle))])
        .controls(2, vec![("play", "Play", Glyph::Note)])
        .picture_tiles(
            TileShape::Portrait,
            vec![("book", "Book", Glyph::Book, Some(cover))],
        )
        .paged_list(2, vec!["a", "b"])
        .unframed_picture(cover, 12)
        .build()
        .nodes;
    let splash = |id, glyph, title: &str, summary: &str| Node::Splash {
        id: NodeId(id),
        glyph: Some(glyph),
        title: title.into(),
        summary: summary.into(),
    };
    assert_eq!(
        nodes[0],
        Node::Skeleton {
            id: NodeId(1),
            lines: 3
        }
    );
    assert!(matches!(
        &nodes[1],
        Node::Button { action, state, .. }
            if *action == action_id("later") && *state == ControlState::Disabled
    ));
    assert_eq!(
        nodes[2..5],
        [
            splash(3, Glyph::Circle, "Nothing here yet", "No books"),
            splash(4, Glyph::Key, "Permission needed", "Ask again"),
            splash(5, Glyph::Close, "Something went wrong", "Try again"),
        ]
    );
    assert_eq!(
        nodes[5..8],
        [
            Node::Quote {
                id: NodeId(6),
                depth: 1,
                role: QuoteRole::Byline,
                text: "Ann".into(),
                fold: None,
            },
            Node::Quote {
                id: NodeId(7),
                depth: 2,
                role: QuoteRole::Body,
                text: "Yes".into(),
                fold: None,
            },
            Node::Quote {
                id: NodeId(8),
                depth: 3,
                role: QuoteRole::Byline,
                text: "Ben".into(),
                fold: Some(Fold {
                    action: action_id("fold"),
                    collapsed: true,
                    hidden: 9,
                }),
            },
        ]
    );
    assert_eq!(
        nodes[8..10],
        [
            Node::Grid {
                id: NodeId(9),
                columns: 3,
                square: true,
                cells: vec![Cell::new(action_id("x"), "X").with_glyph(Glyph::Circle)],
            },
            Node::Grid {
                id: NodeId(10),
                columns: 2,
                square: false,
                cells: vec![Cell::new(action_id("play"), "Play").with_glyph(Glyph::Note)],
            },
        ]
    );
    assert_eq!(
        nodes[10],
        Node::TileGrid {
            id: NodeId(11),
            tiles: vec![Tile::new(action_id("book"), "Book", Glyph::Book).with_picture(cover)],
            shape: TileShape::Portrait,
        }
    );
    assert_eq!(
        nodes[11],
        Node::PagedList {
            id: NodeId(12),
            page: 2,
            items: vec!["a".into(), "b".into()],
        }
    );
    assert_eq!(
        nodes[12],
        Node::Picture {
            id: NodeId(13),
            handle: PictureHandle(7),
            source: (30, 50),
            max_height_tenths_mm: 120,
            framed: false,
        }
    );
}

#[test]
fn words_in_a_paragraph_can_be_links_and_can_be_held() {
    let presentation = ParagraphPresentation::default();
    let nodes = ScreenBuilder::new("page")
        .rich_text_linking("see here", Vec::new(), presentation, vec![("go", 4, 8)])
        .selectable_rich_text_linking(
            "and here",
            Vec::new(),
            presentation,
            11,
            40,
            vec![("on", 4, 8)],
        )
        .build()
        .nodes;
    let paragraph = |id, text: &str, name, selection| Node::RichText {
        id: NodeId(id),
        text: text.into(),
        spans: Vec::new(),
        links: vec![TextLink {
            action: action_id(name),
            start: 4,
            end: 8,
        }],
        presentation,
        selection,
        formulae: Vec::new(),
    };
    assert_eq!(
        nodes,
        vec![
            paragraph(1, "see here", "go", None),
            paragraph(
                2,
                "and here",
                "on",
                Some(TextSelection {
                    context: 11,
                    offset: 40
                })
            ),
        ]
    );
}

#[test]
fn bars_carry_what_was_put_in_them() {
    let screen = ScreenBuilder::new("page")
        .top_bar("Title")
        .top_bar_action("find", "Find")
        .section_rows(
            "Recent",
            Some("2"),
            vec![("a", "A", "first", RowLead::Icon(Glyph::Book))],
        )
        .action_bar_marked(vec![("ok", "OK", Some(Glyph::Check)), ("no", "No", None)])
        .build();
    let bar = screen.top_bar.expect("top bar");
    assert_eq!(bar.actions, vec![BarAction::new(action_id("find"), "Find")]);
    assert_eq!(
        screen.nodes,
        vec![
            Node::Section {
                id: NodeId(2),
                title: "Recent".into(),
                value: Some("2".into()),
            },
            Node::Rows {
                id: NodeId(3),
                rows: vec![Row::new(
                    action_id("a"),
                    "A",
                    "first",
                    RowLead::Icon(Glyph::Book)
                )],
            },
        ]
    );
    assert_eq!(
        screen.nav_bar.expect("action bar").destinations,
        vec![
            BarAction::new(action_id("ok"), "OK").with_glyph(Glyph::Check),
            BarAction::new(action_id("no"), "No"),
        ]
    );
    let bottom = ScreenBuilder::new("page")
        .bottom_action_marked("go", "Go", Glyph::Check)
        .build()
        .bottom_action
        .expect("bottom action");
    assert_eq!(
        bottom.action,
        BarAction::new(action_id("go"), "Go").with_glyph(Glyph::Check)
    );
    assert!(!Chip::new(ActionId(1), "chip").selected);
}

#[test]
fn an_application_is_installed_or_behind() {
    let entry = |installed: Option<&str>| AppInfo {
        id: "notes".into(),
        title: "Notes".into(),
        label: "Notes".into(),
        summary: String::new(),
        version: "1.1.0".into(),
        glyph: Glyph::Note,
        capabilities: Vec::new(),
        installed_version: installed.map(str::to_owned),
    };
    assert!(!entry(None).is_installed());
    assert!(!entry(None).has_update());
    assert!(entry(Some("1.1.0")).is_installed());
    assert!(!entry(Some("1.1.0")).has_update());
    assert!(entry(Some("1.0.0")).has_update());
}

#[test]
fn joining_a_network_is_the_primary_of_the_pair() {
    let nodes = ScreenBuilder::new("t")
        .failure_state(Failure::of(TaskError::Offline), "refresh")
        .build()
        .nodes;
    let button = |id, name, label: &str, emphasis| {
        BandSlot::fill(vec![Node::Button {
            id: NodeId(id),
            action: action_id(name),
            label: label.into(),
            state: ControlState::Enabled,
            emphasis,
        }])
    };
    assert_eq!(nodes.len(), 2);
    assert!(matches!(&nodes[0], Node::Splash { .. }));
    assert_eq!(
        nodes[1],
        Node::Band {
            id: NodeId(2),
            align: BandAlign::Middle,
            slots: vec![
                button(3, "kobo.join-wifi", "Join Wi-Fi", Emphasis::Primary),
                button(4, "refresh", "Try again", Emphasis::Normal),
            ],
        }
    );
}

#[test]
fn a_builder_can_be_kept_and_carried_on_from_twice() {
    let start = ScreenBuilder::new("page").heading("Title");
    let kept = start.clone();
    assert_eq!(kept, start);
    assert_ne!(kept.divider(), start.fill());
    let context = Context::default();
    assert_eq!(context.clone(), context);
}
