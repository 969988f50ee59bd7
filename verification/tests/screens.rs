use kobo::error::ProtocolError;
use kobo::frame::{decode, encode};
use kobo::glyph::Glyph;
use kobo::limits::{HEADER_LEN, MAX_QUOTE_DEPTH};
use kobo::message::{Frame, Message};
use kobo::screen_codec::{decode_reading_surface, read_screen, screen_len, write_screen};
use kobo::ui::{ActionId, BandAlign, BandSlot, BannerLevel, BarAction, Caret, Cell, Chip, ControlState, Emphasis, Fold, FontHandle, Freeform, InlineFormula, NavBar, Node, NodeId, Overlay, ParagraphAlignment, ParagraphPresentation, Percent, PictureHandle, QuoteRole, ReadingChrome, ReadingSurface, RichTextSpan, Row, RowLead, Screen, Space, TableRow, TextPresentation, TextSelection, Tile, TilePicture, TileShape, TileState, TopBar, TransferFailure};
use kobo::wire::Reader;

fn one_of_every_node() -> Vec<Node> {
    vec![
        Node::Table {
            id: NodeId(70),
            rows: vec![
                TableRow {
                    header: true,
                    cells: vec!["Model".into(), "Top-1".into()],
                },
                TableRow {
                    header: false,
                    cells: vec!["ResNet-50".into(), "76.1".into()],
                },
            ],
            weights: vec![240, 90],
        },
        Node::Heading {
            id: NodeId(1),
            text: "Heading".into(),
            level: 1,
        },
        Node::Text {
            id: NodeId(2),
            text: "Body".into(),
            links: Vec::new(),
        },
        Node::RichText {
            id: NodeId(52),
            text: "Styled body".into(),
            spans: vec![RichTextSpan {
                start: 0,
                end: 6,
                presentation: TextPresentation {
                    strong: true,
                    ..TextPresentation::default()
                },
            }],
            links: Vec::new(),
            presentation: ParagraphPresentation {
                alignment: ParagraphAlignment::Center,
                line_height_percent: 130,
                ..ParagraphPresentation::default()
            },
            selection: Some(TextSelection {
                context: 3,
                offset: 11,
            }),
            formulae: vec![InlineFormula {
                start: 7,
                end: 11,
                handle: PictureHandle(9),
                source: (40, 20),
            }],
        },
        Node::Quote {
            id: NodeId(30),
            depth: 2,
            role: QuoteRole::Body,
            fold: None,
            text: "A reply".into(),
        },
        Node::Button {
            id: NodeId(3),
            action: ActionId(1),
            label: "Press".into(),
            state: ControlState::Disabled,
            emphasis: Emphasis::Normal,
        },
        Node::Card {
            id: NodeId(4),
            children: vec![Node::Text {
                id: NodeId(5),
                text: "Nested".into(),
                links: Vec::new(),
            }],
        },
        Node::Divider { id: NodeId(6) },
        Node::Rows {
            id: NodeId(45),
            rows: vec![Row::new(
                ActionId(67),
                "Bleak House",
                "Charles Dickens",
                RowLead::Picture(
                    TilePicture {
                        handle: PictureHandle(9),
                        source: (190, 300),
                    },
                    Glyph::Book,
                ),
            )],
        },
        Node::Field {
            id: NodeId(40),
            action: ActionId(60),
            value: "dickens".into(),
            placeholder: "Search the library".into(),
            clear: Some(ActionId(61)),
        },
        Node::Field {
            id: NodeId(41),
            action: ActionId(62),
            value: String::new(),
            placeholder: String::new(),
            clear: None,
        },
        Node::Chips {
            id: NodeId(42),
            chips: vec![
                Chip::new(ActionId(63), "Fiction").selected(true),
                Chip::new(ActionId(64), "History"),
            ],
        },
        Node::Chips {
            id: NodeId(43),
            chips: Vec::new(),
        },
        Node::Tabs {
            id: NodeId(44),
            tabs: vec![
                Chip::new(ActionId(65), "Discover"),
                Chip::new(ActionId(66), "Popular"),
            ],
            selected: 1,
        },
        Node::Facts {
            id: NodeId(31),
            entries: vec![
                ("Downloads".into(), "94,206".into()),
                ("Rights".into(), "Public domain in the USA".into()),
                ("Series".into(), String::new()),
            ],
        },
        Node::Band {
            id: NodeId(25),
            align: BandAlign::Middle,
            slots: vec![
                BandSlot::fixed(
                    300,
                    vec![Node::Text {
                        id: NodeId(26),
                        text: "Cover".into(),
                        links: Vec::new(),
                    }],
                ),
                BandSlot::fill(vec![
                    Node::Heading {
                        id: NodeId(27),
                        text: "Moby Dick".into(),
                        level: 1,
                    },
                    Node::Secondary {
                        id: NodeId(28),
                        text: "Herman Melville".into(),
                    },
                ]),
                BandSlot::natural(vec![Node::Secondary {
                    id: NodeId(29),
                    text: "32".into(),
                }]),
            ],
        },
        Node::Band {
            id: NodeId(30),
            align: BandAlign::Bottom,
            slots: vec![BandSlot::fill(Vec::new())],
        },
        Node::Section {
            id: NodeId(23),
            title: "Details".into(),
            value: None,
        },
        Node::Section {
            id: NodeId(24),
            title: "Popular".into(),
            value: Some("32".into()),
        },
        Node::Flex { id: NodeId(90) },
        Node::Spacer {
            id: NodeId(7),
            space: Space::Medium,
        },
        Node::Progress {
            id: NodeId(8),
            value: Percent::new(40),
        },
        Node::Stepper {
            id: NodeId(96),
            label: "120%".into(),
            less: BarAction::new(ActionId(30), "").with_glyph(Glyph::Minus),
            more: BarAction::new(ActionId(31), "").with_glyph(Glyph::Plus),
            less_state: ControlState::Enabled,
            more_state: ControlState::Disabled,
            fill: Some(75),
        },
        Node::PagedList {
            id: NodeId(9),
            page: 0,
            items: vec!["one".into(), "two".into()],
        },
        Node::TileGrid {
            shape: TileShape::Square,
            id: NodeId(10),
            tiles: vec![
                Tile::new(ActionId(2), "Reader", Glyph::Reader),
                Tile::new(ActionId(3), "Notes", Glyph::Note),
                Tile::new(ActionId(4), "Bleak House", Glyph::Book)
                    .with_state(TileState::Held)
                    .with_badge("12")
                    .with_subtitle("Charles Dickens"),
            ],
        },
        Node::Splash {
            id: NodeId(21),
            glyph: Some(Glyph::Book),
            title: "Gutenbird".into(),
            summary: "Sixty thousand free books.".into(),
        },
        Node::Splash {
            id: NodeId(22),
            glyph: None,
            title: "Starting".into(),
            summary: String::new(),
        },
        Node::Rows {
            id: NodeId(20),
            rows: vec![
                Row::new(
                    ActionId(7),
                    "Hello",
                    "The smallest application.",
                    RowLead::Icon(Glyph::App),
                ),
                Row::new(ActionId(8), "Counter", "", RowLead::Icon(Glyph::Note)),
                Row::new(ActionId(9), "Great Expectations", "Dickens", RowLead::Icon(Glyph::Book))
                    .with_trailing("18,204"),
                Row::new(ActionId(10), "Ars Technica", "arstechnica.com", RowLead::Icon(Glyph::Rss))
                    .with_menu(ActionId(11)),
                Row::new(
                    ActionId(12),
                    "Hacker News",
                    "news.ycombinator.com",
                    RowLead::Icon(Glyph::News),
                )
                .with_trailing("30")
                .with_menu(ActionId(13)),
            ],
        },
        Node::Choice {
            id: NodeId(11),
            prompt: "Pick one".into(),
            options: vec![
                BarAction::new(ActionId(4), "First"),
                BarAction::new(ActionId(5), "Second"),
            ],
            selected: Some(1),
            freeform: Some(Freeform::new(ActionId(6), "Something else")),
        },
        Node::Banner {
            id: NodeId(12),
            level: BannerLevel::Attention,
            text: "Battery low".into(),
        },
        Node::Skeleton {
            id: NodeId(13),
            lines: 3,
        },
        Node::Activity {
            id: NodeId(14),
            label: "Fetching articles".into(),
            progress: Some(Percent::new(45)),
            cancel: Some(BarAction::new(ActionId(7), "Cancel")),
            transferred: Some((4_404_019, Some(11_534_336))),
            failure: Some(TransferFailure {
                reason: "The connection was reset".into(),
                resumable: true,
            }),
        },
        Node::Activity {
            id: NodeId(15),
            label: "Connecting".into(),
            progress: None,
            cancel: None,
            transferred: None,
            failure: None,
        },
        Node::Activity {
            id: NodeId(56),
            label: "Downloading".into(),
            progress: None,
            cancel: None,
            transferred: Some((512, None)),
            failure: Some(TransferFailure {
                reason: "This edition is no longer published".into(),
                resumable: false,
            }),
        },
        Node::Terminal {
            id: NodeId(16),
            rows: vec!["~ # uname -a".into(), "Linux kobo 4.9.77".into()],
            cursor: Some(Caret::new(1, 17)),
        },
        Node::Terminal {
            id: NodeId(17),
            rows: Vec::new(),
            cursor: None,
        },
    ]
}

fn round_trip(screen: Screen) -> Screen {
    let frame = Frame {
        request_id: 7,
        message: Message::SetScreen(screen),
    };
    let bytes = encode(&frame).expect("encode");
    match decode(&bytes).expect("decode").message {
        Message::SetScreen(screen) => screen,
        other => panic!("expected a screen, got {other:?}"),
    }
}

#[test]
fn screen_round_trip_preserves_reading_surface_and_chrome() {
    for chrome in [ReadingChrome::Hidden, ReadingChrome::Overlay] {
        let screen =
            Screen::new(17, Vec::new()).with_reading_surface(Some(ReadingSurface::new(
                NodeId(9),
                TilePicture::new(PictureHandle(42), 1072, 1448),
                chrome,
            )));
        assert_eq!(round_trip(screen.clone()), screen);
    }
}

#[test]
fn screen_rejects_unknown_reading_surface_flag() {
    let mut reader = Reader::new(&[3]);
    assert_eq!(
        decode_reading_surface(&mut reader),
        Err(ProtocolError::InvalidValue("reading surface flag"))
    );
}

#[test]
fn a_grid_cell_carries_its_glyph_across_the_wire() {
    let cells = vec![
        Cell::new(ActionId(11), "Back 30 sec").with_glyph(Glyph::Rewind30),
        Cell::new(ActionId(12), "Play"),
        Cell::new(ActionId(13), "Louder").with_glyph(Glyph::VolumeUp),
    ];
    let screen = Screen::new(
        1,
        vec![Node::Grid {
            id: NodeId(1),
            columns: 3,
            square: false,
            cells: cells.clone(),
        }],
    );
    match round_trip(screen).nodes.first() {
        Some(Node::Grid { cells: back, .. }) => assert_eq!(back, &cells),
        other => panic!("expected a grid, got {other:?}"),
    }
}

#[test]
fn a_reading_screen_keeps_its_publisher_font_handle() {
    let screen = Screen::new(
        1,
        vec![Node::Text {
            id: NodeId(1),
            text: "Publisher prose".into(),
            links: Vec::new(),
        }],
    )
    .with_reading(true)
    .with_reading_font(Some(FontHandle(42)));
    assert_eq!(round_trip(screen.clone()), screen);
}

#[test]
fn a_folding_byline_survives_the_wire_with_its_count() {
    for fold in [
        None,
        Some(Fold {
            action: ActionId(4321),
            collapsed: true,
            hidden: 4095,
        }),
        Some(Fold {
            action: ActionId(0),
            collapsed: false,
            hidden: 0,
        }),
    ] {
        let node = Node::Quote {
            id: NodeId(3),
            depth: 2,
            role: QuoteRole::Byline,
            fold,
            text: "someone 3 hours ago".to_owned(),
        };
        assert_eq!(
            round_trip(Screen::new(1, vec![node.clone()])).nodes,
            vec![node.clone()],
            "a fold did not survive the wire: {fold:?}"
        );
    }
}

#[test]
fn an_overlay_survives_the_wire() {
    let screen = Screen::new(
        1,
        vec![Node::Text {
            id: NodeId(1),
            text: "Underneath".to_owned(),
            links: Vec::new(),
        }],
    )
    .with_overlay(Overlay::modal(
        NodeId(9),
        "Delete this?",
        vec![Node::Button {
            id: NodeId(10),
            action: ActionId(6),
            label: "Delete".to_owned(),
            state: ControlState::Enabled,
            emphasis: Emphasis::Primary,
        }],
    ));
    assert_eq!(round_trip(screen.clone()).overlay, screen.overlay);
}

#[test]
fn every_node_kind_round_trips_byte_for_byte() {
    for node in one_of_every_node() {
        let screen = Screen::new(1, vec![node.clone()]);
        assert_eq!(
            round_trip(screen).nodes,
            vec![node.clone()],
            "node did not survive the wire: {node:?}"
        );
    }
}

#[test]
fn a_reply_deeper_than_the_cap_arrives_at_the_cap_rather_than_being_refused() {
    let screen = Screen::new(
        1,
        vec![Node::Quote {
            id: NodeId(1),
            depth: 40,
            role: QuoteRole::Body,
            fold: None,
            text: "Deep in an argument".into(),
        }],
    );
    assert_eq!(
        round_trip(screen).nodes,
        vec![Node::Quote {
            id: NodeId(1),
            depth: MAX_QUOTE_DEPTH,
            role: QuoteRole::Body,
            fold: None,
            text: "Deep in an argument".into(),
        }]
    );
}

#[test]
fn a_screen_holding_every_node_round_trips() {
    let nodes = one_of_every_node();
    let screen = Screen::new(9, nodes.clone())
        .with_top_bar(TopBar::new(NodeId(100), "Gallery").action(ActionId(50), "Done"))
        .with_nav_bar(NavBar::new(
            NodeId(101),
            vec![
                BarAction::new(ActionId(60), "Home"),
                BarAction::new(ActionId(61), "Books"),
                BarAction::new(ActionId(62), "More"),
            ],
            Some(1),
        ));
    let decoded = round_trip(screen.clone());
    assert_eq!(decoded, screen);
}

#[test]
fn bars_survive_independently_of_each_other() {
    let only_top = Screen::new(1, Vec::new()).with_top_bar(TopBar::new(NodeId(1), "Title"));
    assert_eq!(round_trip(only_top.clone()), only_top);

    let only_nav = Screen::new(2, Vec::new()).with_nav_bar(NavBar::new(
        NodeId(2),
        vec![
            BarAction::new(ActionId(1), "A"),
            BarAction::new(ActionId(2), "B"),
        ],
        Some(0),
    ));
    assert_eq!(round_trip(only_nav.clone()), only_nav);

    let neither = Screen::new(3, Vec::new());
    assert_eq!(round_trip(neither.clone()), neither);
}

#[test]
fn the_reserved_back_action_cannot_arrive_from_an_application() {
    let screen = Screen::new(1, Vec::new())
        .with_top_bar(TopBar::new(NodeId(1), "Trap").action(ActionId::back(), "Back"));
    let frame = Frame {
        request_id: 1,
        message: Message::SetScreen(screen),
    };
    let bytes = encode(&frame).expect("encode");
    assert!(matches!(
        decode(&bytes),
        Err(ProtocolError::InvalidValue("reserved action id"))
    ));
}

#[test]
fn a_mark_on_any_bar_entry_survives_the_wire() {
    let screen = Screen::new(1, Vec::new())
        .with_nav_bar(NavBar::actions(
            NodeId(1),
            vec![
                BarAction::new(ActionId(1), "Previous").with_glyph(Glyph::Previous),
                BarAction::new(ActionId(2), "Reader"),
                BarAction::new(ActionId(3), "More apps").with_glyph(Glyph::Next),
            ],
        ))
        .with_top_bar(TopBar::new(NodeId(2), "Cobalt"));
    let frame = Frame {
        request_id: 1,
        message: Message::SetScreen(screen.clone()),
    };
    let bytes = encode(&frame).expect("encode");
    let counted = screen_len(&screen, 0, &mut 0).expect("length");
    assert_eq!(bytes.len(), HEADER_LEN + counted);
    let Message::SetScreen(back) = decode(&bytes).expect("decode").message else {
        panic!("expected a screen");
    };
    let marks = back
        .nav_bar
        .expect("nav bar")
        .destinations
        .iter()
        .map(|destination| destination.glyph)
        .collect::<Vec<_>>();
    assert_eq!(
        marks,
        vec![Some(Glyph::Previous), None, Some(Glyph::Next)],
        "a bar entry came back without the mark it was given"
    );
}

#[test]
fn a_nav_bar_with_one_destination_is_rejected() {
    let screen = Screen::new(1, Vec::new()).with_nav_bar(NavBar::new(
        NodeId(1),
        vec![BarAction::new(ActionId(1), "Only")],
        Some(0),
    ));
    let frame = Frame {
        request_id: 1,
        message: Message::SetScreen(screen),
    };
    assert!(matches!(
        encode(&frame),
        Err(ProtocolError::InvalidValue("nav bar destinations"))
    ));
}

#[test]
fn no_destination_being_current_survives_the_wire() {
    let screen = Screen::new(1, Vec::new()).with_nav_bar(NavBar::new(
        NodeId(1),
        vec![
            BarAction::new(ActionId(1), "Back"),
            BarAction::new(ActionId(2), "Library"),
            BarAction::new(ActionId(3), "Next"),
        ],
        None,
    ));
    let decoded = round_trip(screen);
    assert_eq!(
        decoded.nav_bar.expect("nav bar").selected,
        None,
        "a bar of actions must not claim the reader is standing on one of them"
    );
}

#[test]
fn an_out_of_range_selection_clamps_rather_than_losing_navigation() {
    let screen = Screen::new(1, Vec::new()).with_nav_bar(NavBar::new(
        NodeId(1),
        vec![
            BarAction::new(ActionId(1), "A"),
            BarAction::new(ActionId(2), "B"),
        ],
        Some(250),
    ));
    let decoded = round_trip(screen);
    assert_eq!(decoded.nav_bar.expect("nav bar").selected, Some(1));
}

#[test]
fn an_answer_naming_no_option_arrives_unmarked_rather_than_refused() {
    let screen = Screen::new(
        1,
        vec![Node::Choice {
            id: NodeId(1),
            prompt: "Pick one".into(),
            options: vec![BarAction::new(ActionId(4), "First")],
            selected: Some(9),
            freeform: None,
        }],
    );
    let bytes = encode(&Frame {
        request_id: 1,
        message: Message::SetScreen(screen),
    })
    .expect("encode");
    let Message::SetScreen(screen) = decode(&bytes).expect("decode").message else {
        unreachable!("a set screen frame decodes as one")
    };
    let [Node::Choice { selected, .. }] = &screen.nodes[..] else {
        unreachable!("the screen is one choice")
    };
    assert_eq!(*selected, None);
}

#[test]
fn a_choice_offering_no_answers_is_rejected() {
    let screen = Screen::new(
        1,
        vec![Node::Choice {
            id: NodeId(1),
            prompt: "Dead end".into(),
            options: Vec::new(),
            selected: None,
            freeform: None,
        }],
    );
    let frame = Frame {
        request_id: 1,
        message: Message::SetScreen(screen),
    };
    let bytes = encode(&frame).expect("encode");
    assert!(matches!(
        decode(&bytes),
        Err(ProtocolError::InvalidValue("choice with no answers"))
    ));
}

#[test]
fn unknown_tags_are_rejected_rather_than_guessed() {
    for (label, bytes) in [
        ("glyph", {
            let mut screen = Vec::new();
            write_screen(
                &mut screen,
                &Screen::new(
                    1,
                    vec![Node::TileGrid {
                        shape: TileShape::Square,
                        id: NodeId(1),
                        tiles: vec![Tile::new(ActionId(1), "x", Glyph::App)],
                    }],
                ),
            )
            .expect("encode");
            let last = screen.len() - 1;
            screen[last] = 200;
            screen
        }),
        ("banner level", {
            let mut screen = Vec::new();
            write_screen(
                &mut screen,
                &Screen::new(
                    1,
                    vec![Node::Banner {
                        id: NodeId(1),
                        level: BannerLevel::Info,
                        text: String::new(),
                    }],
                ),
            )
            .expect("encode");
            let position = screen.len() - 3;
            screen[position] = 9;
            screen
        }),
    ] {
        let mut reader = Reader::new(&bytes);
        let mut count = 0;
        assert!(
            read_screen(&mut reader, 0, &mut count).is_err(),
            "an unknown {label} tag was accepted"
        );
    }
}
