use kobo::area::{Position, ProseArea, Strips};
use kobo::builder::{
    DialogAction, DiagnosticSeverity, LayoutIssue, LayoutIssueKind, ScreenBuilder,
};
use kobo::failure::{Failure, StandardState};
use kobo::glyph::Glyph;
use kobo::limits::{MAX_CHOICE_OPTIONS, MAX_COLUMNS, MAX_QUOTE_DEPTH, MAX_ROWS};
use kobo::metadata::{AppIcon, AppMetadata};
use kobo::name::action_id;
use kobo::navigator::Navigator;
use kobo::store::StoreError;
use kobo::task::TaskError;
use kobo::ui::{
    ActionId, BandAlign, ControlState, Emphasis, InlineFormula, Node, NodeId, OverlayKind,
    ParagraphPresentation, Percent, PictureHandle, ReadingChrome, RowLead, RowState, SlotWidth,
    TextLink, Tile, TilePicture, TileShape, TransferFailure,
};

#[test]
fn a_hero_puts_the_cover_beside_the_metadata_and_adds_no_node_kind() {
    let screen = ScreenBuilder::new("book")
        .hero(
            Some(TilePicture::new(PictureHandle(1), 300, 450)),
            40,
            "Moby Dick",
            Some("Herman Melville"),
            vec![("Language", "English"), ("Downloads", "12,043")],
        )
        .build();
    assert!(
        matches!(screen.nodes.as_slice(), [Node::Band { slots, .. }] if slots.len() == 2),
        "a hero is a band, not a node of its own: {:?}",
        screen.nodes
    );
}

#[test]
fn a_hero_without_a_cover_gives_the_metadata_the_whole_width() {
    let screen = ScreenBuilder::new("book")
        .hero(None, 40, "Moby Dick", None, vec![("Language", "English")])
        .build();
    assert!(
        !screen
            .nodes
            .iter()
            .any(|node| matches!(node, Node::Band { .. })),
        "nothing should sit beside a cover that never arrived: {:?}",
        screen.nodes
    );
}

#[test]
fn two_secondary_actions_share_one_line() {
    let screen = ScreenBuilder::new("todo")
        .buttons(vec![("add", "Add"), ("clear", "Clear finished")])
        .build();
    let Some(Node::Band { slots, .. }) = screen.nodes.first() else {
        panic!("a pair of actions is a band: {:?}", screen.nodes);
    };
    assert_eq!(slots.len(), 2);
    assert!(
        slots
            .iter()
            .all(|slot| matches!(slot.nodes.as_slice(), [Node::Button { .. }])),
        "a slot holds one button and nothing else"
    );
}

#[test]
fn one_action_beside_nothing_is_just_a_button() {
    let screen = ScreenBuilder::new("todo")
        .buttons(vec![("add", "Add")])
        .build();
    assert!(
        matches!(screen.nodes.as_slice(), [Node::Button { .. }]),
        "{:?}",
        screen.nodes
    );
}

#[test]
fn paired_actions_are_still_separately_addressable() {
    let screen = ScreenBuilder::new("todo")
        .buttons(vec![("add", "Add"), ("clear", "Clear finished")])
        .build();
    let Some(Node::Band { slots, .. }) = screen.nodes.first() else {
        panic!("a pair of actions is a band");
    };
    let actions: Vec<ActionId> = slots
        .iter()
        .filter_map(|slot| match slot.nodes.as_slice() {
            [Node::Button { action, .. }] => Some(*action),
            _ => None,
        })
        .collect();
    assert_eq!(actions.len(), 2);
    assert_ne!(actions[0], actions[1], "both buttons sent the same action");
}

#[test]
fn three_dots_open_a_menu_that_a_tap_anywhere_else_closes() {
    let screen = ScreenBuilder::new("story")
        .top_bar("Moby Dick")
        .top_bar_overflow(
            "more",
            true,
            vec![("save", "Save"), ("share", "Copy the link")],
        )
        .build();
    let bar = screen.top_bar.expect("a top bar");
    assert_eq!(bar.actions.len(), 1, "the bar does not grow, the menu does");
    assert_eq!(bar.actions[0].glyph, Some(Glyph::More));
    let overlay = screen.overlay.expect("a popover");
    assert!(
        matches!(overlay.kind, OverlayKind::Popover { anchor } if anchor == bar.actions[0].action),
        "the menu must hang off the dots it came out of"
    );
    assert!(
        overlay.dismissed_by_a_miss(),
        "a menu that has to be told to close is a menu that gets left open"
    );
    assert_eq!(overlay.nodes.len(), 2);
}

#[test]
fn a_closed_menu_still_leaves_its_dots_in_the_bar() {
    let screen = ScreenBuilder::new("story")
        .top_bar("Moby Dick")
        .top_bar_overflow("more", false, vec![("save", "Save")])
        .build();
    let bar = screen.top_bar.expect("a top bar");
    assert_eq!(bar.actions.len(), 1);
    assert_eq!(bar.actions[0].glyph, Some(Glyph::More));
    assert!(screen.overlay.is_none(), "a closed menu was drawn open");
}

#[test]
fn three_dots_with_nothing_under_them_are_not_drawn() {
    let screen = ScreenBuilder::new("story")
        .top_bar("Moby Dick")
        .top_bar_overflow("more", true, Vec::<(&str, &str)>::new())
        .build();
    assert!(screen.top_bar.expect("a top bar").actions.is_empty());
    assert!(screen.overlay.is_none());
}

#[test]
fn a_second_bottom_bar_is_reported_rather_than_swallowed() {
    let quiet = ScreenBuilder::new("one").action_bar(vec![("save", "Save")]);
    assert!(quiet.warnings().is_empty(), "one bar warned about nothing");

    let two = ScreenBuilder::new("two")
        .action_bar(vec![("save", "Save")])
        .nav_bar(Some(0), vec![("a", "A"), ("b", "B")]);
    assert!(
        two.warnings().iter().any(|issue| matches!(
            issue.kind,
            LayoutIssueKind::CollectionTruncated {
                collection: "bottom bar",
                ..
            }
        )),
        "the action bar was replaced in silence: {:?}",
        two.warnings()
    );
}

#[test]
fn a_missing_key_can_be_named() {
    let missing = Failure::of(TaskError::NoCredential);
    let said = missing.naming("elevenlabs");
    assert!(said.contains("called elevenlabs"), "{said}");
    assert!(said.contains("kobo secret set elevenlabs"), "{said}");
    assert!(!said.contains("that service"), "{said}");

    let slow = Failure::of(TaskError::TimedOut);
    assert_eq!(slow.naming("elevenlabs"), slow.advice);
}

#[test]
fn failures_to_store_say_what_would_help() {
    let full = Failure::storing(StoreError::NoRoom);
    assert_eq!(full.state, StandardState::Error);
    assert_eq!(
        full.advice,
        "There is not enough room left on this reader. Delete something and try again."
    );
    assert!(!full.retryable);
    assert_eq!(Failure::storing(StoreError::TooFull), full);
    assert_eq!(
        Failure::storing(StoreError::Missing).title(),
        "Nothing here yet"
    );
    assert_eq!(
        Failure::storing(StoreError::BadKey).advice,
        "This application asked for a file name the reader will not accept."
    );
    assert_eq!(
        Failure::storing(StoreError::Unwritable).advice,
        "This reader would not save the file."
    );
    assert_eq!(
        Failure::of(TaskError::Unauthorized).title(),
        "Permission needed"
    );
}

#[test]
fn a_transfer_that_has_received_nothing_reports_no_amount() {
    let nodes = |received, total| match ScreenBuilder::new("t")
        .transfer("Downloading", received, total)
        .build()
        .nodes
        .first()
        .expect("the transfer was built")
    {
        Node::Activity { transferred, .. } => *transferred,
        other => panic!("a transfer is an activity, not {other:?}"),
    };
    assert_eq!(nodes(0, None), None);
    assert_eq!(nodes(512, None), Some((512, None)));
    assert_eq!(nodes(0, Some(2048)), Some((0, Some(2048))));
}

#[test]
fn a_transfer_is_a_share_of_what_is_expected() {
    let share = |received, total| match ScreenBuilder::new("t")
        .transfer("Downloading", received, total)
        .build()
        .nodes
        .remove(0)
    {
        Node::Activity { progress, .. } => progress.map(Percent::get),
        other => panic!("a transfer is an activity, not {other:?}"),
    };
    assert_eq!(share(4_404_019, Some(11_534_336)), Some(38));
    assert_eq!(share(9, Some(4)), Some(100));
    assert_eq!(share(9, Some(0)), None);
    assert_eq!(share(u64::MAX, Some(u64::MAX)), Some(1));
    assert_eq!(share(9, None), None);
}

#[test]
fn builder_uses_stable_nodes_and_action_names() {
    let builder = ScreenBuilder::new("hello")
        .heading("Hello, Kobo")
        .text("A dependency-free app")
        .button("close", "Close");
    assert_eq!(builder.action("close"), Some(action_id("close")));
    assert_eq!(builder.action("open"), None);
    let screen = builder.build();
    assert_eq!(screen.id, ScreenBuilder::new("hello").build().id);
    assert_eq!(
        screen.nodes.iter().map(Node::id).collect::<Vec<_>>(),
        vec![NodeId(1), NodeId(2), NodeId(3)]
    );
    assert!(matches!(
        screen.nodes.last(),
        Some(Node::Button { action, .. }) if *action == action_id("close")
    ));
}

#[test]
fn builder_declares_one_semantic_reading_surface() {
    let picture = TilePicture::new(PictureHandle(7), 1072, 1448);
    let screen = ScreenBuilder::new("comic")
        .top_bar("Episode One")
        .reading_surface(picture, ReadingChrome::Overlay)
        .page_turns("previous", "next")
        .reading_menu("chrome")
        .page_position(2, 9)
        .build();

    let surface = screen.reading_surface.expect("reading surface");
    assert_eq!(surface.picture, picture);
    assert_eq!(surface.chrome, ReadingChrome::Overlay);
    assert!(surface.id.0 > 0);
    assert!(screen.nodes.is_empty());
    let turns = screen.page_turns.expect("page turns");
    assert_eq!(turns.menu, Some(action_id("chrome")));
    assert_eq!(turns.position, Some((2, 9)));
}

#[test]
fn navigator_keeps_a_root_and_supports_push_replace_and_reset() {
    let mut navigation = Navigator::new("home");
    assert_eq!(navigation.current(), &"home");
    assert!(!navigation.back());
    navigation.push("details");
    navigation.replace("confirmation");
    assert_eq!(navigation.depth(), 2);
    assert_eq!(navigation.current(), &"confirmation");
    assert!(navigation.back());
    assert_eq!(navigation.current(), &"home");
    navigation.reset("library");
    assert_eq!(navigation.current(), &"library");
    assert!(!navigation.can_go_back());
}

#[test]
fn replacing_at_the_root_replaces_the_root() {
    let mut navigation = Navigator::new(1);
    navigation.replace(2);
    navigation.push(3);
    assert!(navigation.back());
    assert_eq!(navigation.current(), &2);
    assert_eq!(navigation.depth(), 1);
}

#[test]
fn standard_states_and_confirmations_have_consistent_structure() {
    let state = ScreenBuilder::new("offline")
        .offline_state("Reconnect, then try again.")
        .button("retry", "Try again")
        .build();
    assert!(matches!(state.nodes.first(), Some(Node::Splash { .. })));
    assert!(
        !state
            .nodes
            .iter()
            .any(|node| matches!(node, Node::Banner { .. })),
        "a whole-screen state reports once"
    );
    assert!(state
        .nodes
        .iter()
        .any(|node| matches!(node, Node::Splash { title, .. } if title == "You're offline")));
    assert!(matches!(state.nodes.last(), Some(Node::Button { .. })));

    let confirmation = ScreenBuilder::new("delete")
        .confirmation(
            "Delete this note?",
            "This cannot be undone.",
            DialogAction::new("delete", "Delete"),
            DialogAction::new("cancel", "Cancel").disabled(true),
        )
        .build();
    let states = confirmation
        .nodes
        .iter()
        .filter_map(|node| match node {
            Node::Button { state, .. } => Some(*state),
            _ => None,
        })
        .collect::<Vec<_>>();
    assert_eq!(states, vec![ControlState::Enabled, ControlState::Disabled]);
}

#[test]
fn application_metadata_builds_launcher_tiles_with_image_fallbacks() {
    let app = AppMetadata::new(
        "notes",
        "Notes",
        "Write without distraction.",
        AppIcon::picture(TilePicture::new(PictureHandle(8), 128, 128), Glyph::Note),
    );
    let screen = ScreenBuilder::new("apps").apps(vec![app]).build();
    let Node::TileGrid { tiles, .. } = &screen.nodes[0] else {
        panic!("metadata did not produce a tile grid");
    };
    assert_eq!(tiles[0].action, action_id(app.id));
    assert_eq!(tiles[0].label, app.display_name);
    assert_eq!(tiles[0].glyph, Glyph::Note);
    assert_eq!(
        tiles[0].picture,
        Some(TilePicture::new(PictureHandle(8), 128, 128))
    );
}

#[test]
fn checked_build_reports_collection_items_it_had_to_drop() {
    let options: Vec<(String, String)> = (0..=MAX_CHOICE_OPTIONS)
        .map(|index| (format!("option-{index}"), format!("Option {index}")))
        .collect();
    let builder = ScreenBuilder::new("choice").choice(
        "Pick one",
        options
            .iter()
            .map(|(name, label)| (name.as_str(), label.as_str()))
            .collect(),
    );
    assert!(builder.warnings().iter().any(|issue| matches!(
        issue.kind,
        LayoutIssueKind::CollectionTruncated {
            collection: "choice options",
            ..
        }
    )));
    assert!(builder.build_checked().is_err());
}

#[test]
fn action_ids_are_name_deterministic() {
    assert_eq!(action_id("increment"), action_id("increment"));
    assert_ne!(action_id("increment"), action_id("close"));
}

#[test]
fn action_ids_are_the_hashes_of_their_names() {
    assert_eq!(action_id(""), ActionId(0x811c_9dc5));
    assert_eq!(action_id("a"), ActionId(0xe40c_292c));
    assert_eq!(action_id("foobar"), ActionId(0xbf9c_f968));
}

#[test]
fn rows_past_the_limit_are_dropped_and_said_to_be() {
    let names: Vec<String> = (0..=MAX_ROWS).map(|index| format!("row-{index}")).collect();
    let builder = ScreenBuilder::new("list").rows(
        names
            .iter()
            .map(|name| (name.as_str(), "Title", "", RowLead::Number(1)))
            .collect(),
    );
    assert_eq!(
        builder.warnings(),
        &[LayoutIssue {
            severity: DiagnosticSeverity::Warning,
            node: Some(NodeId(1)),
            kind: LayoutIssueKind::CollectionTruncated {
                collection: "rows",
                provided: MAX_ROWS + 1,
                visible: MAX_ROWS,
            },
        }]
    );
    assert_eq!(builder.action(&names[MAX_ROWS - 1]), Some(action_id(&names[MAX_ROWS - 1])));
    assert_eq!(builder.action(&names[MAX_ROWS]), None);
    let screen = builder.build();
    assert!(matches!(&screen.nodes[0], Node::Rows { rows, .. } if rows.len() == MAX_ROWS));
}

#[test]
fn rows_say_at_their_far_end_what_they_have_to_say() {
    let screen = ScreenBuilder::new("list")
        .rows_with_trailing(vec![
            ("a", "A", "", RowLead::Icon(Glyph::Book), "12K"),
            ("b", "B", "", RowLead::Icon(Glyph::Book), ""),
        ])
        .rows_with_menu(vec![
            ("c", "C", "", RowLead::Icon(Glyph::Book), "c-menu"),
            ("d", "D", "", RowLead::Icon(Glyph::Book), ""),
        ])
        .checklist(vec![("e", "E", "", true), ("f", "F", "", false)])
        .build();
    let Node::Rows { rows, .. } = &screen.nodes[0] else {
        panic!("not rows");
    };
    assert_eq!(rows[0].trailing.as_deref(), Some("12K"));
    assert_eq!(rows[1].trailing, None);
    let Node::Rows { rows, .. } = &screen.nodes[1] else {
        panic!("not rows");
    };
    assert_eq!(rows[0].menu, Some(action_id("c-menu")));
    assert_eq!(rows[1].menu, None);
    let Node::Rows { rows, .. } = &screen.nodes[2] else {
        panic!("not rows");
    };
    assert_eq!(rows[0].lead, RowLead::Icon(Glyph::Check));
    assert_eq!(rows[0].state, RowState::Done);
    assert_eq!(rows[1].lead, RowLead::Icon(Glyph::Circle));
    assert_eq!(rows[1].state, RowState::Open);
}

#[test]
fn a_link_that_names_no_run_of_the_text_is_left_out() {
    let builder = ScreenBuilder::new("page").text_linking(
        "caf\u{e9} noir",
        vec![
            ("good", 0, 3),
            ("empty", 2, 2),
            ("split", 0, 4),
            ("past", 0, 99),
            ("rest", 5, 10),
        ],
    );
    assert_eq!(builder.action("split"), None);
    let screen = builder.build();
    let Node::Text { links, .. } = &screen.nodes[0] else {
        panic!("not a paragraph");
    };
    assert_eq!(
        links,
        &vec![
            TextLink {
                action: action_id("good"),
                start: 0,
                end: 3,
            },
            TextLink {
                action: action_id("rest"),
                start: 5,
                end: 10,
            },
        ]
    );
}

#[test]
fn formulas_are_set_in_line_and_clear_of_each_other() {
    let formula = |start, end| InlineFormula {
        start,
        end,
        handle: PictureHandle(1),
        source: (10, 10),
    };
    let screen = ScreenBuilder::new("page")
        .rich_text("a + b = c", Vec::new(), ParagraphPresentation::default())
        .with_formulae(vec![formula(0, 5), formula(4, 6), formula(5, 9), formula(9, 12)])
        .build();
    let Node::RichText { formulae, .. } = &screen.nodes[0] else {
        panic!("not a set paragraph");
    };
    assert_eq!(formulae, &vec![formula(0, 5), formula(5, 9)]);
    let untouched = ScreenBuilder::new("page")
        .divider()
        .with_formulae(vec![formula(0, 1)])
        .build();
    assert_eq!(untouched.nodes, vec![Node::Divider { id: NodeId(1) }]);
}

#[test]
fn what_is_said_of_the_last_node_is_said_of_nothing_else() {
    let screen = ScreenBuilder::new("form")
        .field("query", "", "Search")
        .field_clear("empty")
        .field("query", "whale", "Search")
        .field_clear("empty")
        .stepper("Size", "less", Glyph::Minus, "more", Glyph::Plus)
        .stepper_ends(false, true)
        .stepper_track(140)
        .choice("Pick", vec![("a", "A"), ("b", "B")])
        .or_type("other", "Something else")
        .chosen(1)
        .activity("Working", Some(130))
        .cancellable("stop", "Stop")
        .transfer_failed("the line dropped", true)
        .transfer_retry("again", "Try again")
        .build();
    assert!(matches!(&screen.nodes[0], Node::Field { clear: None, .. }));
    assert!(
        matches!(&screen.nodes[1], Node::Field { clear: Some(action), .. } if *action == action_id("empty"))
    );
    assert!(matches!(
        &screen.nodes[2],
        Node::Stepper {
            less_state: ControlState::Disabled,
            more_state: ControlState::Enabled,
            fill: Some(100),
            ..
        }
    ));
    assert!(matches!(
        &screen.nodes[3],
        Node::Choice { selected: Some(1), freeform: Some(words), .. } if words.placeholder == "Something else"
    ));
    let Node::Activity {
        progress,
        cancel,
        failure,
        ..
    } = &screen.nodes[4]
    else {
        panic!("not an activity");
    };
    assert_eq!(progress.map(Percent::get), Some(100));
    assert_eq!(cancel.as_ref().expect("a way to stop").label, "Stop");
    assert_eq!(
        failure,
        &Some(TransferFailure {
            reason: "the line dropped".into(),
            resumable: true,
        })
    );
    assert!(matches!(&screen.nodes[5], Node::Button { action, .. } if *action == action_id("again")));

    let ended = ScreenBuilder::new("form")
        .transfer("Downloading", 1, Some(2))
        .transfer_failed("gone", false)
        .transfer_retry("again", "Try again")
        .build();
    assert_eq!(ended.nodes.len(), 1);
    let unmarked = ScreenBuilder::new("form")
        .choice("Pick", vec![("a", "A")])
        .chosen(1)
        .build();
    assert!(matches!(&unmarked.nodes[0], Node::Choice { selected: None, .. }));
}

#[test]
fn columns_are_built_one_after_the_other_and_leave_the_page_alone() {
    let mut slots: Vec<(SlotWidth, fn(ScreenBuilder) -> ScreenBuilder)> = Vec::new();
    slots.push((SlotWidth::Natural, |slot| slot.text("left").text("below")));
    slots.push((SlotWidth::Fill, |slot| slot.button("right", "Right")));
    slots.push((SlotWidth::Fixed(120), |slot| slot));
    slots.push((SlotWidth::Fill, |slot| slot.button("unseen", "Unseen")));
    let builder = ScreenBuilder::new("page")
        .heading("Above")
        .band(BandAlign::Middle, slots)
        .text("Under");
    assert_eq!(builder.action("unseen"), None);
    let screen = builder.build();
    assert_eq!(
        screen.nodes.iter().map(Node::id).collect::<Vec<_>>(),
        vec![NodeId(1), NodeId(2), NodeId(6)]
    );
    let Node::Band { slots, .. } = &screen.nodes[1] else {
        panic!("not a band");
    };
    assert_eq!(slots.len(), 3);
    assert_eq!(slots[0].nodes.len(), 2);
    assert_eq!(slots[0].width, SlotWidth::Natural);
    assert!(matches!(slots[1].nodes.as_slice(), [Node::Button { .. }]));
    assert!(slots[2].nodes.is_empty());
}

#[test]
fn a_question_laid_over_a_page_has_two_answers() {
    let screen = ScreenBuilder::new("page")
        .text("Under")
        .confirm("Delete?", "It is gone for good.", ("yes", "Delete"), ("no", "Keep"))
        .build();
    assert_eq!(screen.nodes.len(), 1);
    let overlay = screen.overlay.expect("a question");
    assert_eq!(overlay.kind, OverlayKind::Modal);
    assert!(!overlay.dismissed_by_a_miss());
    assert_eq!(overlay.title, "Delete?");
    assert!(matches!(
        overlay.nodes.as_slice(),
        [
            Node::Text { .. },
            Node::Button {
                emphasis: Emphasis::Primary,
                ..
            },
            Node::Button {
                emphasis: Emphasis::Normal,
                ..
            },
        ]
    ));
}

#[test]
fn somebody_else_can_build_what_covers_a_page() {
    let screen = ScreenBuilder::new("page")
        .text("Under")
        .modal("Title", |builder| builder.text("Over"))
        .compose(|builder| builder.text("After"))
        .build();
    assert_eq!(screen.nodes.len(), 2);
    let overlay = screen.overlay.expect("a cover");
    assert_eq!(overlay.nodes.len(), 1);
    assert_eq!(overlay.id, NodeId(2));

    let menu = ScreenBuilder::new("page")
        .row_overflow("row-menu", true, vec![("open", "Open", Glyph::Book)])
        .build();
    let overlay = menu.overlay.expect("a menu");
    assert_eq!(
        overlay.kind,
        OverlayKind::Popover {
            anchor: action_id("row-menu"),
        }
    );
    assert!(matches!(overlay.nodes.as_slice(), [Node::Rows { rows, .. }] if rows.len() == 1));
    assert!(ScreenBuilder::new("page")
        .row_overflow("row-menu", false, vec![("open", "Open", Glyph::Book)])
        .build()
        .overlay
        .is_none());
}

#[test]
fn tiles_can_be_made_to_order() {
    let tiles: Vec<(&str, &str, Glyph, fn(Tile) -> Tile)> = vec![
        ("a", "A", Glyph::Book, |tile| tile.with_badge("3")),
        ("b", "B", Glyph::Book, |tile| tile),
    ];
    let screen = ScreenBuilder::new("grid")
        .tile_grid(TileShape::Portrait, tiles)
        .build();
    let Node::TileGrid { tiles, shape, .. } = &screen.nodes[0] else {
        panic!("not tiles");
    };
    assert_eq!(*shape, TileShape::Portrait);
    assert_eq!(tiles[0].badge, "3");
    assert_eq!(tiles[1].badge, "");
}

#[test]
fn numbers_that_do_not_fit_are_brought_to_the_nearest_that_do() {
    let screen = ScreenBuilder::new("page")
        .heading_at_level(0, "Title")
        .quote(200, "Deep")
        .grid(0, true, vec![("a", "A")])
        .grid(200, false, vec![("a", "A")])
        .picture(TilePicture::new(PictureHandle(1), 3, 4), 9_000)
        .progress(250)
        .build();
    assert!(matches!(&screen.nodes[0], Node::Heading { level: 1, .. }));
    assert!(matches!(&screen.nodes[1], Node::Quote { depth, .. } if *depth == MAX_QUOTE_DEPTH));
    assert!(matches!(&screen.nodes[2], Node::Grid { columns: 1, .. }));
    assert!(matches!(&screen.nodes[3], Node::Grid { columns, .. } if *columns == MAX_COLUMNS));
    assert!(matches!(
        &screen.nodes[4],
        Node::Picture {
            max_height_tenths_mm: u16::MAX,
            framed: true,
            ..
        }
    ));
    assert!(matches!(&screen.nodes[5], Node::Progress { value, .. } if value.get() == 100));
}

#[test]
fn a_strip_that_nothing_is_drawn_in_is_not_reserved() {
    let area = ProseArea {
        width: 900,
        height: 1200,
        gap: 20,
    };
    let strips = Strips {
        status: 60,
        position: 80,
    };
    assert_eq!(area.area_for(strips, Position::AtTheFoot).height, 1060);
    assert_eq!(area.area_for(strips, Position::Elsewhere).height, 1140);
    assert_eq!(area.paged_area(strips).after_section(100).height, 940);
    assert_eq!(area.screen_area(strips).under(500).height, 620);
    assert_eq!(area.under(5_000).height, 1);
    assert_eq!(Position::default(), Position::AtTheFoot);
}

#[test]
fn facts_about_nothing_are_not_drawn() {
    let screen = ScreenBuilder::new("page")
        .facts(Vec::new())
        .facts(vec![("Language", "English")])
        .build();
    assert_eq!(
        screen.nodes,
        vec![Node::Facts {
            id: NodeId(2),
            entries: vec![("Language".into(), "English".into())],
        }]
    );
}
