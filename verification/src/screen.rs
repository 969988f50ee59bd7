//! What a screen takes on the wire, and that reading it gives it back.

use vstd::prelude::*;

use crate::error::ProtocolError;
use crate::item;
use crate::item::Wire;
use crate::limits::{
    MAX_BAR_ACTIONS, MAX_FRAME_LEN, MAX_NODES, MIN_NAV_DESTINATIONS, NAV_SELECTION_NONE,
};
use crate::node;
use crate::prose;
use crate::ui::{
    ActionId, BarAction, BarActionModel, BarStyle, BottomActionModel, FontHandle, NavBarModel,
    NodeId, NodeModel, OverlayKind, OverlayModel, PageTurns, PictureHandle, ReadingChrome,
    ReadingSurface, ScreenModel, TextScale, TilePicture, TopBarModel,
};
use crate::wire;

verus! {

// ---------------------------------------------------------------------------
// The top bar. Only the controls there is room for are sent.

pub open spec fn bar_actions(bar: TopBarModel) -> Seq<BarActionModel> {
    prose::at_most(bar.actions, MAX_BAR_ACTIONS as int)
}

#[verifier::opaque]
pub open spec fn top_bar_bytes(bar: Option<TopBarModel>) -> Seq<u8> {
    match bar {
        None => seq![0u8],
        Some(bar) => seq![1u8] + wire::be32(bar.id.0) + wire::text_bytes(bar.title) + seq![
            bar_actions(bar).len() as u8,
        ] + item::bytes_of_all::<BarAction>(bar_actions(bar)),
    }
}

#[verifier::opaque]
pub open spec fn parse_top_bar(s: Seq<u8>) -> wire::Parsed<Option<TopBarModel>> {
    match wire::parse_u8(s) {
        Err(e) => Err(e),
        Ok((flag, s)) => if flag == 0 {
            Ok((None, s))
        } else if flag == 1 {
            match wire::parse_u32(s) {
                Err(e) => Err(e),
                Ok((id, s)) => match wire::parse_text(s) {
                    Err(e) => Err(e),
                    Ok((title, s)) => match wire::parse_u8(s) {
                        Err(e) => Err(e),
                        Ok((count, s)) => if count > MAX_BAR_ACTIONS {
                            Err(ProtocolError::InvalidValue("top bar action count"))
                        } else {
                            match item::parse_all::<BarAction>(s, count as nat) {
                                Err(e) => Err(e),
                                Ok((actions, s)) => Ok(
                                    (Some(TopBarModel { id: NodeId(id), title, actions }), s),
                                ),
                            }
                        },
                    },
                },
            }
        } else {
            Err(ProtocolError::InvalidValue("top bar flag"))
        },
    }
}

#[verifier::opaque]
pub open spec fn grown_by_top_bar(
    total: Result<int, ProtocolError>,
    bar: Option<TopBarModel>,
) -> Result<int, ProtocolError> {
    match bar {
        None => total,
        Some(bar) => item::grown_by_all::<BarAction>(
            bar_actions(bar),
            wire::grown_text(wire::grown(total, 5), bar.title),
        ),
    }
}

pub open spec fn top_bar_fits(bar: Option<TopBarModel>) -> bool {
    match bar {
        None => true,
        Some(bar) => wire::text_fits(bar.title) && item::all_fit::<BarAction>(bar_actions(bar)),
    }
}

pub open spec fn top_bar_faithful(bar: Option<TopBarModel>) -> bool {
    match bar {
        None => true,
        Some(bar) => bar.actions.len() <= MAX_BAR_ACTIONS && item::all_faithful::<BarAction>(
            bar.actions,
        ),
    }
}

/// A top bar that was counted fits, and takes exactly what was counted.
pub proof fn lemma_top_bar_counted(total: int, bar: Option<TopBarModel>)
    requires
        grown_by_top_bar(Ok(total), bar) is Ok,
    ensures
        top_bar_fits(bar),
        grown_by_top_bar(Ok(total), bar)->Ok_0 + 1 == total + top_bar_bytes(bar).len(),
{
    broadcast use wire::group_lengths;

    reveal(grown_by_top_bar);
    reveal(top_bar_bytes);
    if let Some(bar) = bar {
        let head = wire::grown_text(wire::grown(Ok(total), 5), bar.title);
        item::lemma_all_counted::<BarAction>(bar_actions(bar), head->Ok_0);
    }
}

pub proof fn lemma_top_bar_read_back(bar: Option<TopBarModel>, rest: Seq<u8>)
    requires
        top_bar_fits(bar),
        top_bar_faithful(bar),
    ensures
        parse_top_bar(top_bar_bytes(bar) + rest) == Ok::<_, ProtocolError>((bar, rest)),
{
    broadcast use wire::group_reading;

    reveal(parse_top_bar);
    reveal(top_bar_bytes);
    if let Some(bar) = bar {
        item::lemma_all_read_back::<BarAction>(bar.actions, rest);
    }
}

// ---------------------------------------------------------------------------
// The bar along the bottom.

pub open spec fn style_tag(style: BarStyle) -> u8 {
    match style {
        BarStyle::Navigation => 1,
        BarStyle::Actions => 2,
    }
}

/// One value says that no destination is the current one.
pub open spec fn selection_byte(selected: Option<usize>) -> u8 {
    match selected {
        None => NAV_SELECTION_NONE,
        Some(index) => if index < NAV_SELECTION_NONE {
            index as u8
        } else {
            (NAV_SELECTION_NONE - 1) as u8
        },
    }
}

#[verifier::opaque]
pub open spec fn nav_bar_bytes(bar: Option<NavBarModel>) -> Seq<u8> {
    match bar {
        None => seq![0u8],
        Some(bar) => seq![style_tag(bar.style)] + wire::be32(bar.id.0) + seq![
            bar.destinations.len() as u8,
        ] + seq![selection_byte(bar.selected)] + item::bytes_of_all::<BarAction>(
            bar.destinations,
        ),
    }
}

/// A selection past the last destination is the last one.
#[verifier::opaque]
pub open spec fn parse_nav_bar(s: Seq<u8>) -> wire::Parsed<Option<NavBarModel>> {
    match wire::parse_u8(s) {
        Err(e) => Err(e),
        Ok((flag, s)) => if flag == 0 {
            Ok((None, s))
        } else if flag == 1 || flag == 2 {
            match wire::parse_u32(s) {
                Err(e) => Err(e),
                Ok((id, s)) => match wire::parse_u8(s) {
                    Err(e) => Err(e),
                    Ok((count, s)) => match wire::parse_u8(s) {
                        Err(e) => Err(e),
                        Ok((selected, s)) => match item::parse_all::<BarAction>(s, count as nat) {
                            Err(e) => Err(e),
                            Ok((destinations, s)) => if destinations.len() < MIN_NAV_DESTINATIONS {
                                Err(ProtocolError::InvalidValue("nav bar destinations"))
                            } else {
                                Ok(
                                    (
                                        Some(
                                            NavBarModel {
                                                id: NodeId(id),
                                                destinations,
                                                selected: if selected == NAV_SELECTION_NONE {
                                                    None
                                                } else if selected < destinations.len() {
                                                    Some(selected as usize)
                                                } else {
                                                    Some((destinations.len() - 1) as usize)
                                                },
                                                style: if flag == 1 {
                                                    BarStyle::Navigation
                                                } else {
                                                    BarStyle::Actions
                                                },
                                            },
                                        ),
                                        s,
                                    ),
                                )
                            },
                        },
                    },
                },
            }
        } else {
            Err(ProtocolError::InvalidValue("nav bar flag"))
        },
    }
}

#[verifier::opaque]
pub open spec fn grown_by_nav_bar(
    total: Result<int, ProtocolError>,
    bar: Option<NavBarModel>,
) -> Result<int, ProtocolError> {
    match bar {
        None => total,
        Some(bar) => if total is Ok && bar.destinations.len() > u8::MAX {
            Err(ProtocolError::TooManyNodes)
        } else {
            item::grown_by_all::<BarAction>(bar.destinations, wire::grown(total, 6))
        },
    }
}

pub open spec fn nav_bar_fits(bar: Option<NavBarModel>) -> bool {
    match bar {
        None => true,
        Some(bar) => bar.destinations.len() <= u8::MAX && item::all_fit::<BarAction>(
            bar.destinations,
        ),
    }
}

/// A bar of one destination says nothing about where else the reader could
/// go, and a selection that does not fit a byte names no destination.
pub open spec fn nav_bar_refusal(bar: Option<NavBarModel>) -> Option<ProtocolError> {
    match bar {
        None => None,
        Some(bar) => if bar.destinations.len() < MIN_NAV_DESTINATIONS {
            Some(ProtocolError::InvalidValue("nav bar destinations"))
        } else if bar.selected is Some && bar.selected->0 > u8::MAX {
            Some(ProtocolError::InvalidValue("nav bar selection"))
        } else {
            None
        },
    }
}

pub open spec fn nav_bar_faithful(bar: Option<NavBarModel>) -> bool {
    match bar {
        None => true,
        Some(bar) => {
            &&& bar.destinations.len() >= MIN_NAV_DESTINATIONS
            &&& bar.selected is Some ==> bar.selected->0 < bar.destinations.len()
            &&& item::all_faithful::<BarAction>(bar.destinations)
        },
    }
}

pub proof fn lemma_nav_bar_counted(total: int, bar: Option<NavBarModel>)
    requires
        grown_by_nav_bar(Ok(total), bar) is Ok,
    ensures
        nav_bar_fits(bar),
        grown_by_nav_bar(Ok(total), bar)->Ok_0 + 1 == total + nav_bar_bytes(bar).len(),
{
    broadcast use wire::group_lengths;

    reveal(grown_by_nav_bar);
    reveal(nav_bar_bytes);
    if let Some(bar) = bar {
        item::lemma_all_counted::<BarAction>(bar.destinations, total + 6);
    }
}

pub proof fn lemma_nav_bar_read_back(bar: Option<NavBarModel>, rest: Seq<u8>)
    requires
        nav_bar_fits(bar),
        nav_bar_faithful(bar),
    ensures
        parse_nav_bar(nav_bar_bytes(bar) + rest) == Ok::<_, ProtocolError>((bar, rest)),
{
    broadcast use wire::group_reading;

    reveal(parse_nav_bar);
    reveal(nav_bar_bytes);
    if let Some(bar) = bar {
        item::lemma_all_read_back::<BarAction>(bar.destinations, rest);
    }
}

// ---------------------------------------------------------------------------
// The one control pinned to the bottom, where no bar has claimed the band.

#[verifier::opaque]
pub open spec fn bottom_bytes(bottom: Option<BottomActionModel>, free: bool) -> Seq<u8> {
    match bottom {
        Some(bottom) if free => seq![1u8] + wire::be32(bottom.id.0) + BarAction::bytes(
            bottom.action,
        ),
        _ => seq![0u8],
    }
}

#[verifier::opaque]
pub open spec fn parse_bottom(s: Seq<u8>) -> wire::Parsed<Option<BottomActionModel>> {
    match wire::parse_u8(s) {
        Err(e) => Err(e),
        Ok((flag, s)) => if flag == 0 {
            Ok((None, s))
        } else if flag == 1 {
            match wire::parse_u32(s) {
                Err(e) => Err(e),
                Ok((id, s)) => match BarAction::parse(s) {
                    Err(e) => Err(e),
                    Ok((action, s)) => Ok((Some(BottomActionModel { id: NodeId(id), action }), s)),
                },
            }
        } else {
            Err(ProtocolError::InvalidValue("bottom action flag"))
        },
    }
}

#[verifier::opaque]
pub open spec fn grown_by_bottom(
    total: Result<int, ProtocolError>,
    bottom: Option<BottomActionModel>,
    free: bool,
) -> Result<int, ProtocolError> {
    let flagged = wire::grown(total, 1);
    match bottom {
        Some(bottom) if free => match wire::grown(flagged, 4) {
            Err(e) => Err(e),
            Ok(so_far) => BarAction::grown(bottom.action, so_far),
        },
        _ => flagged,
    }
}

pub open spec fn bottom_fits(bottom: Option<BottomActionModel>, free: bool) -> bool {
    match bottom {
        Some(bottom) if free => BarAction::fits(bottom.action),
        _ => true,
    }
}

pub proof fn lemma_bottom_counted(total: int, bottom: Option<BottomActionModel>, free: bool)
    requires
        grown_by_bottom(Ok(total), bottom, free) is Ok,
    ensures
        bottom_fits(bottom, free),
        grown_by_bottom(Ok(total), bottom, free)->Ok_0 == total + bottom_bytes(bottom, free).len(),
{
    broadcast use wire::group_lengths;

    reveal(grown_by_bottom);
    reveal(bottom_bytes);
    if let Some(bottom) = bottom {
        if free {
            BarAction::lemma_counted(bottom.action, total + 5);
        }
    }
}

pub proof fn lemma_bottom_read_back(
    bottom: Option<BottomActionModel>,
    free: bool,
    rest: Seq<u8>,
)
    requires
        bottom_fits(bottom, free),
        bottom is Some ==> free && BarAction::faithful(bottom->0.action),
    ensures
        parse_bottom(bottom_bytes(bottom, free) + rest) == Ok::<_, ProtocolError>((bottom, rest)),
{
    broadcast use wire::group_reading;

    reveal(parse_bottom);
    reveal(bottom_bytes);
    if let Some(bottom) = bottom {
        BarAction::lemma_read_back(bottom.action, rest);
    }
}

// ---------------------------------------------------------------------------
// What the sides of the content area do.

pub open spec fn position_bytes(position: Option<(u16, u16)>) -> Seq<u8> {
    match position {
        None => seq![0u8],
        Some((page, of)) => seq![1u8] + wire::be16(page) + wire::be16(of),
    }
}

#[verifier::opaque]
pub open spec fn turns_bytes(turns: Option<PageTurns>) -> Seq<u8> {
    match turns {
        None => seq![0u8],
        Some(turns) => seq![
            if turns.menu is Some {
                2u8
            } else {
                1u8
            },
        ] + wire::be32(turns.previous.0) + wire::be32(turns.next.0) + match turns.menu {
            None => Seq::empty(),
            Some(menu) => wire::be32(menu.0),
        } + position_bytes(turns.position),
    }
}

pub open spec fn parse_position(s: Seq<u8>) -> wire::Parsed<Option<(u16, u16)>> {
    match wire::parse_u8(s) {
        Err(e) => Err(e),
        Ok((flag, s)) => if flag == 0 {
            Ok((None, s))
        } else if flag == 1 {
            match wire::parse_u16(s) {
                Err(e) => Err(e),
                Ok((page, s)) => match wire::parse_u16(s) {
                    Err(e) => Err(e),
                    Ok((of, s)) => Ok((Some((page, of)), s)),
                },
            }
        } else {
            Err(ProtocolError::InvalidValue("page position flag"))
        },
    }
}

pub open spec fn parse_turn_menu(s: Seq<u8>, flag: u8) -> wire::Parsed<Option<ActionId>> {
    if flag == 1 {
        Ok((None, s))
    } else {
        match wire::parse_u32(s) {
            Err(e) => Err(e),
            Ok((menu, s)) => Ok((Some(ActionId(menu)), s)),
        }
    }
}

#[verifier::opaque]
pub open spec fn parse_turns(s: Seq<u8>) -> wire::Parsed<Option<PageTurns>> {
    match wire::parse_u8(s) {
        Err(e) => Err(e),
        Ok((flag, s)) => if flag == 0 {
            Ok((None, s))
        } else if flag == 1 || flag == 2 {
            match wire::parse_u32(s) {
                Err(e) => Err(e),
                Ok((previous, s)) => match wire::parse_u32(s) {
                    Err(e) => Err(e),
                    Ok((next, s)) => match parse_turn_menu(s, flag) {
                        Err(e) => Err(e),
                        Ok((menu, s)) => match parse_position(s) {
                            Err(e) => Err(e),
                            Ok((position, s)) => Ok(
                                (
                                    Some(
                                        PageTurns {
                                            previous: ActionId(previous),
                                            next: ActionId(next),
                                            menu,
                                            position,
                                        },
                                    ),
                                    s,
                                ),
                            ),
                        },
                    },
                },
            }
        } else {
            Err(ProtocolError::InvalidValue("page turn flag"))
        },
    }
}

#[verifier::opaque]
pub open spec fn grown_by_turns(
    total: Result<int, ProtocolError>,
    turns: Option<PageTurns>,
) -> Result<int, ProtocolError> {
    let flagged = wire::grown(total, 1);
    match turns {
        None => flagged,
        Some(turns) => {
            let both = wire::grown(flagged, 8);
            let menu = if turns.menu is Some {
                wire::grown(both, 4)
            } else {
                both
            };
            let placed = wire::grown(menu, 1);
            if turns.position is Some {
                wire::grown(placed, 4)
            } else {
                placed
            }
        },
    }
}

pub proof fn lemma_turns_counted(total: int, turns: Option<PageTurns>)
    requires
        grown_by_turns(Ok(total), turns) is Ok,
    ensures
        grown_by_turns(Ok(total), turns)->Ok_0 == total + turns_bytes(turns).len(),
{
    broadcast use wire::group_lengths;

    reveal(grown_by_turns);
    reveal(turns_bytes);
}

pub proof fn lemma_turns_read_back(turns: Option<PageTurns>, rest: Seq<u8>)
    ensures
        parse_turns(turns_bytes(turns) + rest) == Ok::<_, ProtocolError>((turns, rest)),
{
    broadcast use {wire::group_reading, wire::lemma_nothing_concat};

    reveal(parse_turns);
    reveal(turns_bytes);
}

// ---------------------------------------------------------------------------
// One identifier that may be missing.

pub open spec fn word_bytes(word: Option<u32>) -> Seq<u8> {
    match word {
        None => seq![0u8],
        Some(word) => seq![1u8] + wire::be32(word),
    }
}

pub open spec fn parse_word(s: Seq<u8>, name: &'static str) -> wire::Parsed<Option<u32>> {
    match wire::parse_u8(s) {
        Err(e) => Err(e),
        Ok((flag, s)) => if flag == 0 {
            Ok((None, s))
        } else if flag == 1 {
            match wire::parse_u32(s) {
                Err(e) => Err(e),
                Ok((word, s)) => Ok((Some(word), s)),
            }
        } else {
            Err(ProtocolError::InvalidValue(name))
        },
    }
}

pub open spec fn word_of_hold(hold: Option<ActionId>) -> Option<u32> {
    match hold {
        None => None,
        Some(action) => Some(action.0),
    }
}

pub open spec fn word_of_font(font: Option<FontHandle>) -> Option<u32> {
    match font {
        None => None,
        Some(handle) => Some(handle.0),
    }
}

pub open spec fn hold_of_word(word: Option<u32>) -> Option<ActionId> {
    match word {
        None => None,
        Some(word) => Some(ActionId(word)),
    }
}

pub open spec fn font_of_word(word: Option<u32>) -> Option<FontHandle> {
    match word {
        None => None,
        Some(word) => Some(FontHandle(word)),
    }
}

// ---------------------------------------------------------------------------
// The text size a screen asks for. Zero inherits the reader's own.

pub open spec fn scale_byte(scale: Option<TextScale>) -> u8 {
    match scale {
        None => 0,
        Some(TextScale::Default) => 1,
        Some(TextScale::Large) => 2,
        Some(TextScale::ExtraLarge) => 3,
    }
}

pub open spec fn parse_scale(s: Seq<u8>) -> wire::Parsed<Option<TextScale>> {
    match wire::parse_u8(s) {
        Err(e) => Err(e),
        Ok((value, s)) => if value == 0 {
            Ok((None, s))
        } else if value == 1 {
            Ok((Some(TextScale::Default), s))
        } else if value == 2 {
            Ok((Some(TextScale::Large), s))
        } else if value == 3 {
            Ok((Some(TextScale::ExtraLarge), s))
        } else {
            Err(ProtocolError::InvalidValue("text scale"))
        },
    }
}

// ---------------------------------------------------------------------------
// The picture a reading screen is.

pub open spec fn surface_bytes(surface: Option<ReadingSurface>) -> Seq<u8> {
    match surface {
        None => seq![0u8],
        Some(surface) => seq![
            match surface.chrome {
                ReadingChrome::Hidden => 1u8,
                ReadingChrome::Overlay => 2u8,
            },
        ] + wire::be32(surface.id.0) + wire::be32(surface.picture.handle.0) + wire::be32(
            surface.picture.source.0,
        ) + wire::be32(surface.picture.source.1),
    }
}

pub open spec fn parse_surface(s: Seq<u8>) -> wire::Parsed<Option<ReadingSurface>> {
    match wire::parse_u8(s) {
        Err(e) => Err(e),
        Ok((mode, s)) => if mode == 0 {
            Ok((None, s))
        } else if mode == 1 || mode == 2 {
            match wire::parse_u32(s) {
                Err(e) => Err(e),
                Ok((id, s)) => match wire::parse_u32(s) {
                    Err(e) => Err(e),
                    Ok((handle, s)) => match wire::parse_u32(s) {
                        Err(e) => Err(e),
                        Ok((width, s)) => match wire::parse_u32(s) {
                            Err(e) => Err(e),
                            Ok((height, s)) => Ok(
                                (
                                    Some(
                                        ReadingSurface {
                                            id: NodeId(id),
                                            picture: TilePicture {
                                                handle: PictureHandle(handle),
                                                source: (width, height),
                                            },
                                            chrome: if mode == 1 {
                                                ReadingChrome::Hidden
                                            } else {
                                                ReadingChrome::Overlay
                                            },
                                        },
                                    ),
                                    s,
                                ),
                            ),
                        },
                    },
                },
            }
        } else {
            Err(ProtocolError::InvalidValue("reading surface flag"))
        },
    }
}

// ---------------------------------------------------------------------------
// How a screen is read: the text size, the font and the surface.

#[verifier::opaque]
pub open spec fn habits_bytes(screen: ScreenModel) -> Seq<u8> {
    word_bytes(word_of_hold(screen.hold)) + seq![wire::flag_byte(screen.owns_back)] + seq![
        scale_byte(screen.text_scale),
    ] + seq![wire::flag_byte(screen.reading)] + word_bytes(word_of_font(screen.reading_font))
        + surface_bytes(screen.reading_surface)
}

/// The parts of a screen that say how it is read.
pub struct Habits {
    pub hold: Option<ActionId>,
    pub owns_back: bool,
    pub text_scale: Option<TextScale>,
    pub reading: bool,
    pub reading_font: Option<FontHandle>,
    pub reading_surface: Option<ReadingSurface>,
}

pub open spec fn habits_of(screen: ScreenModel) -> Habits {
    Habits {
        hold: screen.hold,
        owns_back: screen.owns_back,
        text_scale: screen.text_scale,
        reading: screen.reading,
        reading_font: screen.reading_font,
        reading_surface: screen.reading_surface,
    }
}

#[verifier::opaque]
pub open spec fn parse_habits(s: Seq<u8>) -> wire::Parsed<Habits> {
    match parse_word(s, "hold flag") {
        Err(e) => Err(e),
        Ok((hold, s)) => match wire::parse_flag(s, "own back flag") {
            Err(e) => Err(e),
            Ok((owns_back, s)) => match parse_scale(s) {
                Err(e) => Err(e),
                Ok((text_scale, s)) => match wire::parse_flag(s, "reading flag") {
                    Err(e) => Err(e),
                    Ok((reading, s)) => match parse_word(s, "reading font flag") {
                        Err(e) => Err(e),
                        Ok((font, s)) => match parse_surface(s) {
                            Err(e) => Err(e),
                            Ok((reading_surface, s)) => Ok(
                                (
                                    Habits {
                                        hold: hold_of_word(hold),
                                        owns_back,
                                        text_scale,
                                        reading,
                                        reading_font: font_of_word(font),
                                        reading_surface,
                                    },
                                    s,
                                ),
                            ),
                        },
                    },
                },
            },
        },
    }
}

#[verifier::opaque]
pub open spec fn grown_by_habits(
    total: Result<int, ProtocolError>,
    screen: ScreenModel,
) -> Result<int, ProtocolError> {
    let flagged = wire::grown(total, 1);
    let held = if screen.hold is Some {
        wire::grown(flagged, 4)
    } else {
        flagged
    };
    let sized = wire::grown(held, 4);
    let lettered = if screen.reading_font is Some {
        wire::grown(sized, 4)
    } else {
        sized
    };
    let surfaced = wire::grown(lettered, 1);
    if screen.reading_surface is Some {
        wire::grown(surfaced, 16)
    } else {
        surfaced
    }
}

pub proof fn lemma_habits_counted(total: int, screen: ScreenModel)
    requires
        grown_by_habits(Ok(total), screen) is Ok,
    ensures
        grown_by_habits(Ok(total), screen)->Ok_0 == total + habits_bytes(screen).len(),
{
    broadcast use wire::group_lengths;

    reveal(grown_by_habits);
    reveal(habits_bytes);
}

proof fn lemma_surface_read_back(surface: Option<ReadingSurface>, rest: Seq<u8>)
    ensures
        parse_surface(surface_bytes(surface) + rest) == Ok::<_, ProtocolError>((surface, rest)),
{
    broadcast use wire::group_reading;

}

proof fn lemma_word_read_back(word: Option<u32>, name: &'static str, rest: Seq<u8>)
    ensures
        parse_word(word_bytes(word) + rest, name) == Ok::<_, ProtocolError>((word, rest)),
{
    broadcast use wire::group_reading;

}

pub proof fn lemma_habits_read_back(screen: ScreenModel, rest: Seq<u8>)
    ensures
        parse_habits(habits_bytes(screen) + rest) == Ok::<_, ProtocolError>(
            (habits_of(screen), rest),
        ),
{
    reveal(parse_habits);
    let after_font = surface_bytes(screen.reading_surface) + rest;
    let after_reading = word_bytes(word_of_font(screen.reading_font)) + after_font;
    let after_scale = seq![wire::flag_byte(screen.reading)] + after_reading;
    let after_back = seq![scale_byte(screen.text_scale)] + after_scale;
    let after_hold = seq![wire::flag_byte(screen.owns_back)] + after_back;
    assert(habits_bytes(screen) + rest == word_bytes(word_of_hold(screen.hold)) + after_hold) by {
        reveal(habits_bytes);
        broadcast use wire::lemma_concat_to_the_right;

    }
    lemma_word_read_back(word_of_hold(screen.hold), "hold flag", after_hold);
    wire::lemma_parse_u8(wire::flag_byte(screen.owns_back), after_back);
    wire::lemma_parse_u8(scale_byte(screen.text_scale), after_scale);
    wire::lemma_parse_u8(wire::flag_byte(screen.reading), after_reading);
    lemma_word_read_back(word_of_font(screen.reading_font), "reading font flag", after_font);
    lemma_surface_read_back(screen.reading_surface, rest);
}

// ---------------------------------------------------------------------------
// What covers a screen.

pub open spec fn kind_bytes(kind: OverlayKind) -> Seq<u8> {
    match kind {
        OverlayKind::Modal => seq![0u8],
        OverlayKind::Popover { anchor } => seq![1u8] + wire::be32(anchor.0),
    }
}

#[verifier::opaque]
pub open spec fn overlay_bytes(overlay: Option<OverlayModel>) -> Seq<u8> {
    match overlay {
        None => seq![0u8],
        Some(overlay) => seq![1u8] + wire::be32(overlay.id.0) + kind_bytes(overlay.kind)
            + wire::text_bytes(overlay.title) + wire::be16(overlay.nodes.len() as u16)
            + node::nodes_bytes(overlay.nodes),
    }
}

pub open spec fn parse_kind(s: Seq<u8>) -> wire::Parsed<OverlayKind> {
    match wire::parse_u8(s) {
        Err(e) => Err(e),
        Ok((tag, s)) => if tag == 0 {
            Ok((OverlayKind::Modal, s))
        } else if tag == 1 {
            match wire::parse_u32(s) {
                Err(e) => Err(e),
                Ok((anchor, s)) => Ok((OverlayKind::Popover { anchor: ActionId(anchor) }, s)),
            }
        } else {
            Err(ProtocolError::InvalidValue("overlay kind"))
        },
    }
}

/// A run of nodes and how many there are.
pub open spec fn parse_counted_nodes(s: Seq<u8>, depth: int, count: int) -> wire::Parsed<
    (Seq<NodeModel>, int),
> {
    match wire::parse_u16(s) {
        Err(e) => Err(e),
        Ok((nodes, s)) => if nodes > MAX_NODES {
            Err(ProtocolError::TooManyNodes)
        } else {
            node::parse_nodes(s, nodes as nat, depth, count)
        },
    }
}

#[verifier::opaque]
pub open spec fn parse_overlay(s: Seq<u8>, depth: int, count: int) -> wire::Parsed<
    (Option<OverlayModel>, int),
> {
    match wire::parse_u8(s) {
        Err(e) => Err(e),
        Ok((flag, s)) => if flag == 0 {
            Ok(((None, count), s))
        } else if flag == 1 {
            match wire::parse_u32(s) {
                Err(e) => Err(e),
                Ok((id, s)) => match parse_kind(s) {
                    Err(e) => Err(e),
                    Ok((kind, s)) => match wire::parse_text(s) {
                        Err(e) => Err(e),
                        Ok((title, s)) => match parse_counted_nodes(s, depth, count) {
                            Err(e) => Err(e),
                            Ok(((nodes, count), s)) => Ok(
                                (
                                    (
                                        Some(OverlayModel { id: NodeId(id), kind, title, nodes }),
                                        count,
                                    ),
                                    s,
                                ),
                            ),
                        },
                    },
                },
            }
        } else {
            Err(ProtocolError::InvalidValue("overlay flag"))
        },
    }
}

/// A running length and count after what covers a screen.
#[verifier::opaque]
pub open spec fn size_overlay(
    overlay: Option<OverlayModel>,
    depth: int,
    count: int,
    total: int,
) -> Result<(int, int), ProtocolError> {
    let flagged = wire::grown(Ok(total), 1);
    match overlay {
        None => match flagged {
            Err(e) => Err(e),
            Ok(total) => Ok((total, count)),
        },
        Some(overlay) => {
            let head = wire::grown(flagged, 7);
            let placed = if overlay.kind is Popover {
                wire::grown(head, 4)
            } else {
                head
            };
            match wire::grown_text(placed, overlay.title) {
                Err(e) => Err(e),
                Ok(total) => node::size_nodes(overlay.nodes, depth, count, total),
            }
        },
    }
}

pub open spec fn overlay_fits(overlay: Option<OverlayModel>) -> bool {
    match overlay {
        None => true,
        Some(overlay) => wire::text_fits(overlay.title) && overlay.nodes.len() <= MAX_NODES
            && node::nodes_fit(overlay.nodes),
    }
}

pub open spec fn overlay_refusal(overlay: Option<OverlayModel>) -> Option<ProtocolError> {
    match overlay {
        None => None,
        Some(overlay) => node::nodes_refusal(overlay.nodes),
    }
}

pub open spec fn overlay_faithful(overlay: Option<OverlayModel>) -> bool {
    match overlay {
        None => true,
        Some(overlay) => node::nodes_faithful(overlay.nodes),
    }
}

pub proof fn lemma_overlay_counted(
    overlay: Option<OverlayModel>,
    depth: int,
    count: int,
    total: int,
)
    requires
        0 <= count <= MAX_NODES,
        size_overlay(overlay, depth, count, total) is Ok,
    ensures
        overlay_fits(overlay),
        size_overlay(overlay, depth, count, total)->Ok_0.0 == total + overlay_bytes(overlay).len(),
        count <= size_overlay(overlay, depth, count, total)->Ok_0.1 <= MAX_NODES,
{
    broadcast use wire::group_lengths;

    reveal(size_overlay);
    reveal(overlay_bytes);
    if let Some(overlay) = overlay {
        let head = wire::grown(wire::grown(Ok(total), 1), 7);
        let placed = if overlay.kind is Popover {
            wire::grown(head, 4)
        } else {
            head
        };
        let so_far = wire::grown_text(placed, overlay.title)->Ok_0;
        node::lemma_nodes_counted(overlay.nodes, depth, count, so_far);
    }
}

/// A run of nodes reads back, with how many there are in front of it.
pub proof fn lemma_counted_nodes_read_back(
    nodes: Seq<NodeModel>,
    rest: Seq<u8>,
    depth: int,
    count: int,
    total: int,
)
    requires
        0 <= count <= MAX_NODES,
        node::nodes_faithful(nodes),
        node::size_nodes(nodes, depth, count, total) is Ok,
    ensures
        parse_counted_nodes(
            wire::be16(nodes.len() as u16) + (node::nodes_bytes(nodes) + rest),
            depth,
            count,
        ) == Ok::<_, ProtocolError>(
            ((nodes, node::size_nodes(nodes, depth, count, total)->Ok_0.1), rest),
        ),
{
    node::lemma_nodes_counted(nodes, depth, count, total);
    wire::lemma_parse_u16(nodes.len() as u16, node::nodes_bytes(nodes) + rest);
    node::lemma_nodes_read_back(nodes, rest, depth, count, total);
}

pub proof fn lemma_overlay_read_back(
    overlay: Option<OverlayModel>,
    rest: Seq<u8>,
    depth: int,
    count: int,
    total: int,
)
    requires
        0 <= count <= MAX_NODES,
        overlay_faithful(overlay),
        size_overlay(overlay, depth, count, total) is Ok,
    ensures
        parse_overlay(overlay_bytes(overlay) + rest, depth, count) == Ok::<_, ProtocolError>(
            ((overlay, size_overlay(overlay, depth, count, total)->Ok_0.1), rest),
        ),
{
    reveal(parse_overlay);
    reveal(overlay_bytes);
    reveal(size_overlay);
    if let Some(overlay) = overlay {
        let head = wire::grown(wire::grown(Ok(total), 1), 7);
        let placed = if overlay.kind is Popover {
            wire::grown(head, 4)
        } else {
            head
        };
        let so_far = wire::grown_text(placed, overlay.title)->Ok_0;
        lemma_counted_nodes_read_back(overlay.nodes, rest, depth, count, so_far);
        let nodes = wire::be16(overlay.nodes.len() as u16) + (node::nodes_bytes(overlay.nodes)
            + rest);
        let titled = wire::text_bytes(overlay.title) + nodes;
        let kinded = kind_bytes(overlay.kind) + titled;
        assert(overlay_bytes(Some(overlay)) + rest == seq![1u8] + (wire::be32(overlay.id.0)
            + kinded)) by {
            broadcast use wire::lemma_concat_to_the_right;

        }
        wire::lemma_parse_u8(1u8, wire::be32(overlay.id.0) + kinded);
        wire::lemma_parse_u32(overlay.id.0, kinded);
        assert(parse_kind(kinded) == Ok::<_, ProtocolError>((overlay.kind, titled))) by {
            broadcast use wire::group_reading;

        }
        wire::lemma_parse_text(overlay.title, nodes);
    } else {
        wire::lemma_parse_u8(0u8, rest);
    }
}

// ---------------------------------------------------------------------------
// The whole screen.

pub open spec fn screen_bytes(screen: ScreenModel) -> Seq<u8> {
    wire::be32(screen.id) + top_bar_bytes(screen.top_bar) + nav_bar_bytes(screen.nav_bar)
        + bottom_bytes(screen.bottom_action, screen.nav_bar is None) + turns_bytes(
        screen.page_turns,
    ) + habits_bytes(screen) + wire::be16(screen.nodes.len() as u16) + node::nodes_bytes(
        screen.nodes,
    ) + overlay_bytes(screen.overlay)
}

/// The length of everything but a screen's nodes and what covers it.
pub open spec fn frame_of_screen_len(screen: ScreenModel) -> Result<int, ProtocolError> {
    let topped = grown_by_top_bar(Ok(8), screen.top_bar);
    let turned = grown_by_turns(topped, screen.page_turns);
    let habited = grown_by_habits(turned, screen);
    let barred = grown_by_nav_bar(habited, screen.nav_bar);
    grown_by_bottom(barred, screen.bottom_action, screen.nav_bar is None)
}

/// The length of a screen and the running count of nodes after it.
pub open spec fn size_screen(screen: ScreenModel, depth: int, count: int) -> Result<
    (int, int),
    ProtocolError,
> {
    if screen.nodes.len() > MAX_NODES {
        Err(ProtocolError::TooManyNodes)
    } else {
        match frame_of_screen_len(screen) {
            Err(e) => Err(e),
            Ok(total) => match node::size_nodes(screen.nodes, depth, count, total) {
                Err(e) => Err(e),
                Ok((total, count)) => size_overlay(screen.overlay, depth, count, total),
            },
        }
    }
}

pub open spec fn screen_fits(screen: ScreenModel) -> bool {
    &&& top_bar_fits(screen.top_bar)
    &&& nav_bar_fits(screen.nav_bar)
    &&& bottom_fits(screen.bottom_action, screen.nav_bar is None)
    &&& screen.nodes.len() <= MAX_NODES
    &&& node::nodes_fit(screen.nodes)
    &&& overlay_fits(screen.overlay)
}

/// The first thing about a screen that cannot be sent.
pub open spec fn screen_refusal(screen: ScreenModel) -> Option<ProtocolError> {
    match nav_bar_refusal(screen.nav_bar) {
        Some(e) => Some(e),
        None => match node::nodes_refusal(screen.nodes) {
            Some(e) => Some(e),
            None => overlay_refusal(screen.overlay),
        },
    }
}

/// Whether a screen says nothing that the wire would drop, clip or refuse.
pub open spec fn screen_faithful(screen: ScreenModel) -> bool {
    &&& top_bar_faithful(screen.top_bar)
    &&& nav_bar_faithful(screen.nav_bar)
    &&& screen.bottom_action is Some ==> screen.nav_bar is None && BarAction::faithful(
        screen.bottom_action->0.action,
    )
    &&& node::nodes_faithful(screen.nodes)
    &&& overlay_faithful(screen.overlay)
}

/// The bar wins over the pinned control where a frame carries both.
pub open spec fn parse_screen(s: Seq<u8>, depth: int, count: int) -> wire::Parsed<
    (ScreenModel, int),
> {
    match wire::parse_u32(s) {
        Err(e) => Err(e),
        Ok((id, s)) => match parse_top_bar(s) {
            Err(e) => Err(e),
            Ok((top_bar, s)) => match parse_nav_bar(s) {
                Err(e) => Err(e),
                Ok((nav_bar, s)) => match parse_bottom(s) {
                    Err(e) => Err(e),
                    Ok((bottom, s)) => match parse_turns(s) {
                        Err(e) => Err(e),
                        Ok((page_turns, s)) => match parse_habits(s) {
                            Err(e) => Err(e),
                            Ok((habits, s)) => match parse_counted_nodes(s, depth, count) {
                                Err(e) => Err(e),
                                Ok(((nodes, count), s)) => match parse_overlay(s, depth, count) {
                                    Err(e) => Err(e),
                                    Ok(((overlay, count), s)) => Ok(
                                        (
                                            (
                                                ScreenModel {
                                                    id,
                                                    top_bar,
                                                    reading_surface: habits.reading_surface,
                                                    nodes,
                                                    nav_bar,
                                                    bottom_action: if nav_bar is None {
                                                        bottom
                                                    } else {
                                                        None
                                                    },
                                                    page_turns,
                                                    hold: habits.hold,
                                                    owns_back: habits.owns_back,
                                                    text_scale: habits.text_scale,
                                                    overlay,
                                                    reading: habits.reading,
                                                    reading_font: habits.reading_font,
                                                },
                                                count,
                                            ),
                                            s,
                                        ),
                                    ),
                                },
                            },
                        },
                    },
                },
            },
        },
    }
}

proof fn lemma_frame_of_screen_counted(screen: ScreenModel)
    requires
        frame_of_screen_len(screen) is Ok,
    ensures
        top_bar_fits(screen.top_bar),
        nav_bar_fits(screen.nav_bar),
        bottom_fits(screen.bottom_action, screen.nav_bar is None),
        frame_of_screen_len(screen)->Ok_0 == 6 + top_bar_bytes(screen.top_bar).len()
            + turns_bytes(screen.page_turns).len() + habits_bytes(screen).len() + nav_bar_bytes(
            screen.nav_bar,
        ).len() + bottom_bytes(screen.bottom_action, screen.nav_bar is None).len(),
{
    let free = screen.nav_bar is None;
    let topped = grown_by_top_bar(Ok(8), screen.top_bar);
    let turned = grown_by_turns(topped, screen.page_turns);
    let habited = grown_by_habits(turned, screen);
    let barred = grown_by_nav_bar(habited, screen.nav_bar);
    assert(barred is Ok) by {
        reveal(grown_by_bottom);
    }
    assert(habited is Ok) by {
        reveal(grown_by_nav_bar);
        reveal_with_fuel(item::grown_by_all, 1);
    }
    assert(turned is Ok) by {
        reveal(grown_by_habits);
    }
    assert(topped is Ok) by {
        reveal(grown_by_turns);
    }
    lemma_top_bar_counted(8, screen.top_bar);
    lemma_turns_counted(topped->Ok_0, screen.page_turns);
    lemma_habits_counted(turned->Ok_0, screen);
    lemma_nav_bar_counted(habited->Ok_0, screen.nav_bar);
    lemma_bottom_counted(barred->Ok_0, screen.bottom_action, free);
}

/// A screen that was counted fits, and takes exactly what was counted.
pub proof fn lemma_screen_counted(screen: ScreenModel, depth: int, count: int)
    requires
        0 <= count <= MAX_NODES,
        size_screen(screen, depth, count) is Ok,
    ensures
        screen_fits(screen),
        screen_bytes(screen).len() == size_screen(screen, depth, count)->Ok_0.0,
        size_screen(screen, depth, count)->Ok_0.1 <= MAX_NODES,
{
    broadcast use wire::group_lengths;

    let total = frame_of_screen_len(screen)->Ok_0;
    let (grown, after) = node::size_nodes(screen.nodes, depth, count, total)->Ok_0;
    lemma_frame_of_screen_counted(screen);
    node::lemma_nodes_counted(screen.nodes, depth, count, total);
    lemma_overlay_counted(screen.overlay, depth, after, grown);
}

/// A screen that loses nothing on the wire is read back as it was.
pub proof fn lemma_screen_read_back(screen: ScreenModel, rest: Seq<u8>, depth: int, count: int)
    requires
        0 <= count <= MAX_NODES,
        screen_faithful(screen),
        size_screen(screen, depth, count) is Ok,
    ensures
        parse_screen(screen_bytes(screen) + rest, depth, count) == Ok::<_, ProtocolError>(
            ((screen, size_screen(screen, depth, count)->Ok_0.1), rest),
        ),
{
    let free = screen.nav_bar is None;
    let total = frame_of_screen_len(screen)->Ok_0;
    let (grown, after) = node::size_nodes(screen.nodes, depth, count, total)->Ok_0;
    lemma_frame_of_screen_counted(screen);
    node::lemma_nodes_counted(screen.nodes, depth, count, total);
    let after_nodes = overlay_bytes(screen.overlay) + rest;
    let after_habits = wire::be16(screen.nodes.len() as u16) + (node::nodes_bytes(screen.nodes)
        + after_nodes);
    let after_turns = habits_bytes(screen) + after_habits;
    let after_bottom = turns_bytes(screen.page_turns) + after_turns;
    let after_nav = bottom_bytes(screen.bottom_action, free) + after_bottom;
    let after_top = nav_bar_bytes(screen.nav_bar) + after_nav;
    let after_id = top_bar_bytes(screen.top_bar) + after_top;
    assert(screen_bytes(screen) + rest == wire::be32(screen.id) + after_id) by {
        broadcast use wire::lemma_concat_to_the_right;

    }
    wire::lemma_parse_u32(screen.id, after_id);
    lemma_top_bar_read_back(screen.top_bar, after_top);
    lemma_nav_bar_read_back(screen.nav_bar, after_nav);
    lemma_bottom_read_back(screen.bottom_action, free, after_bottom);
    lemma_turns_read_back(screen.page_turns, after_turns);
    lemma_habits_read_back(screen, after_habits);
    lemma_counted_nodes_read_back(screen.nodes, after_nodes, depth, count, total);
    lemma_overlay_read_back(screen.overlay, rest, depth, after, grown);
}

/// A screen that was counted is no longer than a frame may be.
pub proof fn lemma_screen_bounded(screen: ScreenModel, depth: int, count: int)
    requires
        size_screen(screen, depth, count) is Ok,
    ensures
        size_screen(screen, depth, count)->Ok_0.0 <= MAX_FRAME_LEN,
{
    reveal(size_overlay);
    let total = frame_of_screen_len(screen)->Ok_0;
    let (grown, after) = node::size_nodes(screen.nodes, depth, count, total)->Ok_0;
    if let Some(overlay) = screen.overlay {
        let head = wire::grown(wire::grown(Ok(grown), 1), 7);
        let placed = if overlay.kind is Popover {
            wire::grown(head, 4)
        } else {
            head
        };
        let so_far = wire::grown_text(placed, overlay.title)->Ok_0;
        node::lemma_nodes_bounded(overlay.nodes, depth, after, so_far);
    }
}

} // verus!
