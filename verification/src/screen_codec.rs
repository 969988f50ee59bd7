//! Counting, writing and reading a screen.

use vstd::prelude::*;

use crate::error::ProtocolError;
use crate::item;
use crate::item::{add_all_len, add_first_len, read_all, write_all, write_first, Wire};
use crate::leaf_codec;
use crate::limits::{
    MAX_BAR_ACTIONS, MAX_DEPTH, MAX_FRAME_LEN, MAX_NODES, MIN_NAV_DESTINATIONS,
    NAV_SELECTION_NONE,
};
use crate::node_codec;
use crate::node_codec::{nodes_len, read_nodes, write_nodes};
use crate::screen;
use crate::screen::Habits;
use crate::ui;
use crate::ui::{
    ActionId, BarAction, BarStyle, BottomAction, FontHandle, NavBar, NodeId, Overlay, OverlayKind,
    OverlayModel, PageTurns, PictureHandle, ReadingChrome, ReadingSurface, Screen, TextScale,
    TilePicture, TopBar,
};
use crate::wire;
use crate::wire::{
    add_encoded_len, add_text_len, push_flag, push_text, push_u16, push_u32, push_u8, Reader,
};

verus! {

// ---------------------------------------------------------------------------
// Counting.

/// How many controls of a top bar are sent.
fn shown_actions(bar: &TopBar) -> (shown: usize)
    ensures
        shown == screen::bar_actions(bar@).len(),
        shown <= bar.actions@.len(),
        shown <= MAX_BAR_ACTIONS,
{
    if bar.actions.len() <= MAX_BAR_ACTIONS {
        bar.actions.len()
    } else {
        MAX_BAR_ACTIONS
    }
}

fn add_top_bar_len(total: usize, bar: &Option<TopBar>) -> (result: Result<usize, ProtocolError>)
    requires
        total <= MAX_FRAME_LEN,
    ensures
        wire::counts(result, screen::grown_by_top_bar(Ok(total as int), wire::model_of(*bar))),
{
    reveal(screen::grown_by_top_bar);
    match bar {
        None => Ok(total),
        Some(bar) => {
            let mut so_far: usize = add_encoded_len(total, 5)?;
            so_far = add_text_len(so_far, bar.title.as_str())?;
            let shown: usize = shown_actions(bar);
            proof {
                leaf_codec::lemma_at_most(
                    item::models(bar.actions@),
                    MAX_BAR_ACTIONS as int,
                    shown as int,
                );
            }
            add_first_len(&bar.actions, shown, so_far)
        },
    }
}

fn add_turns_len(total: usize, turns: &Option<PageTurns>) -> (result: Result<usize, ProtocolError>)
    requires
        total <= MAX_FRAME_LEN,
    ensures
        wire::counts(result, screen::grown_by_turns(Ok(total as int), *turns)),
{
    reveal(screen::grown_by_turns);
    let mut so_far: usize = add_encoded_len(total, 1)?;
    if let Some(turns) = turns {
        so_far = add_encoded_len(so_far, 8)?;
        if turns.menu.is_some() {
            so_far = add_encoded_len(so_far, 4)?;
        }
        so_far = add_encoded_len(so_far, 1)?;
        if turns.position.is_some() {
            so_far = add_encoded_len(so_far, 4)?;
        }
    }
    Ok(so_far)
}

fn add_habits_len(total: usize, screen: &Screen) -> (result: Result<usize, ProtocolError>)
    requires
        total <= MAX_FRAME_LEN,
    ensures
        wire::counts(result, screen::grown_by_habits(Ok(total as int), screen@)),
{
    reveal(screen::grown_by_habits);
    let mut so_far: usize = add_encoded_len(total, 1)?;
    if screen.hold.is_some() {
        so_far = add_encoded_len(so_far, 4)?;
    }
    so_far = add_encoded_len(so_far, 4)?;
    if screen.reading_font.is_some() {
        so_far = add_encoded_len(so_far, 4)?;
    }
    so_far = add_encoded_len(so_far, 1)?;
    if screen.reading_surface.is_some() {
        so_far = add_encoded_len(so_far, 16)?;
    }
    Ok(so_far)
}

fn add_nav_bar_len(total: usize, bar: &Option<NavBar>) -> (result: Result<usize, ProtocolError>)
    requires
        total <= MAX_FRAME_LEN,
    ensures
        wire::counts(result, screen::grown_by_nav_bar(Ok(total as int), wire::model_of(*bar))),
{
    reveal(screen::grown_by_nav_bar);
    match bar {
        None => Ok(total),
        Some(bar) => {
            if bar.destinations.len() > u8::MAX as usize {
                return Err(ProtocolError::TooManyNodes);
            }
            let so_far: usize = add_encoded_len(total, 6)?;
            add_all_len(&bar.destinations, so_far)
        },
    }
}

fn add_bottom_len(total: usize, bottom: &Option<BottomAction>, free: bool) -> (result: Result<
    usize,
    ProtocolError,
>)
    requires
        total <= MAX_FRAME_LEN,
    ensures
        wire::counts(
            result,
            screen::grown_by_bottom(Ok(total as int), wire::model_of(*bottom), free),
        ),
{
    reveal(screen::grown_by_bottom);
    let mut so_far: usize = add_encoded_len(total, 1)?;
    if let Some(bottom) = bottom {
        if free {
            so_far = add_encoded_len(so_far, 4)?;
            so_far = bottom.action.add_len(so_far)?;
        }
    }
    Ok(so_far)
}

/// The model of what covers a screen, if anything does.
pub open spec fn overlay_model(overlay: Option<Box<Overlay>>) -> Option<OverlayModel> {
    match overlay {
        None => None,
        Some(overlay) => Some((*overlay)@),
    }
}

fn add_overlay_len(
    overlay: &Option<Box<Overlay>>,
    depth: usize,
    count: &mut usize,
    total: usize,
) -> (result: Result<usize, ProtocolError>)
    requires
        *old(count) <= MAX_NODES,
        total <= MAX_FRAME_LEN,
    ensures
        node_codec::measures(
            result,
            *final(count),
            screen::size_overlay(
                overlay_model(*overlay),
                depth as int,
                *old(count) as int,
                total as int,
            ),
        ),
{
    reveal(screen::size_overlay);
    let mut so_far: usize = add_encoded_len(total, 1)?;
    match overlay {
        None => Ok(so_far),
        Some(overlay) => {
            so_far = add_encoded_len(so_far, 7)?;
            match overlay.kind {
                OverlayKind::Popover { .. } => {
                    so_far = add_encoded_len(so_far, 4)?;
                },
                OverlayKind::Modal => {},
            }
            so_far = add_text_len(so_far, overlay.title.as_str())?;
            nodes_len(&overlay.nodes, depth, count, so_far)
        },
    }
}

/// The length of a screen on the wire, counting every node on it.
pub fn screen_len(screen: &Screen, depth: usize, count: &mut usize) -> (result: Result<
    usize,
    ProtocolError,
>)
    requires
        *old(count) <= MAX_NODES,
    ensures
        node_codec::measures(
            result,
            *final(count),
            screen::size_screen(screen@, depth as int, *old(count) as int),
        ),
{
    if screen.nodes.len() > MAX_NODES {
        return Err(ProtocolError::TooManyNodes);
    }
    let mut so_far: usize = 8;
    proof {
        lemma_refused_early(screen@);
    }
    so_far = add_top_bar_len(so_far, &screen.top_bar)?;
    so_far = add_turns_len(so_far, &screen.page_turns)?;
    so_far = add_habits_len(so_far, screen)?;
    so_far = add_nav_bar_len(so_far, &screen.nav_bar)?;
    so_far = add_bottom_len(so_far, &screen.bottom_action, screen.nav_bar.is_none())?;
    so_far = nodes_len(&screen.nodes, depth, count, so_far)?;
    add_overlay_len(&screen.overlay, depth, count, so_far)
}

/// Once a length is refused it stays refused, for the same reason.
proof fn lemma_refused_early(screen: ui::ScreenModel)
    ensures
        forall|e: ProtocolError| #[trigger]
            screen::grown_by_turns(Err(e), screen.page_turns) == Err::<int, _>(e),
        forall|e: ProtocolError| #[trigger]
            screen::grown_by_habits(Err(e), screen) == Err::<int, _>(e),
        forall|e: ProtocolError| #[trigger]
            screen::grown_by_nav_bar(Err(e), screen.nav_bar) == Err::<int, _>(e),
        forall|e: ProtocolError| #[trigger]
            screen::grown_by_bottom(Err(e), screen.bottom_action, screen.nav_bar is None)
                == Err::<int, _>(e),
{
    reveal(screen::grown_by_turns);
    reveal(screen::grown_by_habits);
    reveal(screen::grown_by_nav_bar);
    reveal(screen::grown_by_bottom);
}

// ---------------------------------------------------------------------------
// Writing.

fn write_top_bar(output: &mut Vec<u8>, bar: &Option<TopBar>)
    requires
        screen::top_bar_fits(wire::model_of(*bar)),
    ensures
        final(output)@ == old(output)@ + screen::top_bar_bytes(wire::model_of(*bar)),
{
    broadcast use wire::group_writing;

    reveal(screen::top_bar_bytes);
    match bar {
        None => push_u8(output, 0),
        Some(bar) => {
            let shown: usize = shown_actions(bar);
            proof {
                leaf_codec::lemma_at_most(
                    item::models(bar.actions@),
                    MAX_BAR_ACTIONS as int,
                    shown as int,
                );
            }
            push_u8(output, 1);
            push_u32(output, bar.id.0);
            push_text(output, bar.title.as_str());
            push_u8(output, shown as u8);
            write_first(output, &bar.actions, shown);
        },
    }
}

fn write_nav_bar(output: &mut Vec<u8>, bar: &Option<NavBar>) -> (result: Result<
    (),
    ProtocolError,
>)
    requires
        screen::nav_bar_fits(wire::model_of(*bar)),
    ensures
        leaf_codec::writes(
            result,
            old(output)@,
            final(output)@,
            screen::nav_bar_refusal(wire::model_of(*bar)),
            screen::nav_bar_bytes(wire::model_of(*bar)),
        ),
{
    broadcast use wire::group_writing;

    reveal(screen::nav_bar_bytes);
    match bar {
        None => push_u8(output, 0),
        Some(bar) => {
            if bar.destinations.len() < MIN_NAV_DESTINATIONS {
                return Err(ProtocolError::InvalidValue("nav bar destinations"));
            }
            push_u8(
                output,
                match bar.style {
                    BarStyle::Navigation => 1,
                    BarStyle::Actions => 2,
                },
            );
            push_u32(output, bar.id.0);
            push_u8(output, bar.destinations.len() as u8);
            let selected: u8 = match bar.selected {
                None => NAV_SELECTION_NONE,
                Some(index) => {
                    if index > u8::MAX as usize {
                        return Err(ProtocolError::InvalidValue("nav bar selection"));
                    }
                    if index < NAV_SELECTION_NONE as usize {
                        index as u8
                    } else {
                        NAV_SELECTION_NONE - 1
                    }
                },
            };
            push_u8(output, selected);
            write_all(output, &bar.destinations);
        },
    }
    Ok(())
}

fn write_bottom(output: &mut Vec<u8>, bottom: &Option<BottomAction>, free: bool)
    requires
        screen::bottom_fits(wire::model_of(*bottom), free),
    ensures
        final(output)@ == old(output)@ + screen::bottom_bytes(wire::model_of(*bottom), free),
{
    broadcast use wire::group_writing;

    reveal(screen::bottom_bytes);
    match bottom {
        Some(bottom) if free => {
            push_u8(output, 1);
            push_u32(output, bottom.id.0);
            bottom.action.write(output);
        },
        _ => push_u8(output, 0),
    }
}

fn write_turns(output: &mut Vec<u8>, turns: &Option<PageTurns>)
    ensures
        final(output)@ == old(output)@ + screen::turns_bytes(*turns),
{
    broadcast use {wire::group_writing, wire::lemma_concat_nothing};

    reveal(screen::turns_bytes);
    match turns {
        None => push_u8(output, 0),
        Some(turns) => {
            push_u8(
                output,
                if turns.menu.is_some() {
                    2
                } else {
                    1
                },
            );
            push_u32(output, turns.previous.0);
            push_u32(output, turns.next.0);
            if let Some(menu) = turns.menu {
                push_u32(output, menu.0);
            }
            match turns.position {
                None => push_u8(output, 0),
                Some((page, of)) => {
                    push_u8(output, 1);
                    push_u16(output, page);
                    push_u16(output, of);
                },
            }
        },
    }
}

fn write_word(output: &mut Vec<u8>, word: Option<u32>)
    ensures
        final(output)@ == old(output)@ + screen::word_bytes(word),
{
    broadcast use wire::group_writing;

    match word {
        None => push_u8(output, 0),
        Some(word) => {
            push_u8(output, 1);
            push_u32(output, word);
        },
    }
}

fn write_surface(output: &mut Vec<u8>, surface: &Option<ReadingSurface>)
    ensures
        final(output)@ == old(output)@ + screen::surface_bytes(*surface),
{
    broadcast use wire::group_writing;

    match surface {
        None => push_u8(output, 0),
        Some(surface) => {
            push_u8(
                output,
                match surface.chrome {
                    ReadingChrome::Hidden => 1,
                    ReadingChrome::Overlay => 2,
                },
            );
            push_u32(output, surface.id.0);
            push_u32(output, surface.picture.handle.0);
            push_u32(output, surface.picture.source.0);
            push_u32(output, surface.picture.source.1);
        },
    }
}

fn write_habits(output: &mut Vec<u8>, screen: &Screen)
    ensures
        final(output)@ == old(output)@ + screen::habits_bytes(screen@),
{
    broadcast use wire::group_writing;

    reveal(screen::habits_bytes);
    write_word(
        output,
        match screen.hold {
            None => None,
            Some(action) => Some(action.0),
        },
    );
    push_flag(output, screen.owns_back);
    push_u8(
        output,
        match screen.text_scale {
            None => 0,
            Some(TextScale::Default) => 1,
            Some(TextScale::Large) => 2,
            Some(TextScale::ExtraLarge) => 3,
        },
    );
    push_flag(output, screen.reading);
    write_word(
        output,
        match screen.reading_font {
            None => None,
            Some(handle) => Some(handle.0),
        },
    );
    write_surface(output, &screen.reading_surface);
}

fn write_overlay(output: &mut Vec<u8>, overlay: &Option<Box<Overlay>>) -> (result: Result<
    (),
    ProtocolError,
>)
    requires
        screen::overlay_fits(overlay_model(*overlay)),
    ensures
        leaf_codec::writes(
            result,
            old(output)@,
            final(output)@,
            screen::overlay_refusal(overlay_model(*overlay)),
            screen::overlay_bytes(overlay_model(*overlay)),
        ),
{
    broadcast use wire::group_writing;

    reveal(screen::overlay_bytes);
    match overlay {
        None => {
            push_u8(output, 0);
            Ok(())
        },
        Some(overlay) => {
            push_u8(output, 1);
            push_u32(output, overlay.id.0);
            match overlay.kind {
                OverlayKind::Modal => push_u8(output, 0),
                OverlayKind::Popover { anchor } => {
                    push_u8(output, 1);
                    push_u32(output, anchor.0);
                },
            }
            push_text(output, overlay.title.as_str());
            push_u16(output, overlay.nodes.len() as u16);
            write_nodes(output, &overlay.nodes)
        },
    }
}

/// Writes a screen, refusing one that the reader could not draw.
pub fn write_screen(output: &mut Vec<u8>, screen: &Screen) -> (result: Result<(), ProtocolError>)
    requires
        screen::screen_fits(screen@),
    ensures
        leaf_codec::writes(
            result,
            old(output)@,
            final(output)@,
            screen::screen_refusal(screen@),
            screen::screen_bytes(screen@),
        ),
{
    broadcast use wire::group_writing;

    push_u32(output, screen.id);
    write_top_bar(output, &screen.top_bar);
    write_nav_bar(output, &screen.nav_bar)?;
    write_bottom(output, &screen.bottom_action, screen.nav_bar.is_none());
    write_turns(output, &screen.page_turns);
    write_habits(output, screen);
    push_u16(output, screen.nodes.len() as u16);
    write_nodes(output, &screen.nodes)?;
    write_overlay(output, &screen.overlay)
}

// ---------------------------------------------------------------------------
// Reading.

fn read_top_bar(reader: &mut Reader<'_>) -> (result: Result<Option<TopBar>, ProtocolError>)
    ensures
        wire::finds(result, final(reader)@, screen::parse_top_bar(old(reader)@)),
{
    reveal(screen::parse_top_bar);
    let flag: u8 = reader.u8()?;
    if flag == 0 {
        Ok(None)
    } else if flag == 1 {
        let id = NodeId(reader.u32()?);
        let title = reader.string()?;
        let count: u8 = reader.u8()?;
        if count as usize > MAX_BAR_ACTIONS {
            return Err(ProtocolError::InvalidValue("top bar action count"));
        }
        let actions = read_all::<BarAction>(reader, count as usize)?;
        Ok(Some(TopBar { id, title, actions }))
    } else {
        Err(ProtocolError::InvalidValue("top bar flag"))
    }
}

fn read_nav_bar(reader: &mut Reader<'_>) -> (result: Result<Option<NavBar>, ProtocolError>)
    ensures
        wire::finds(result, final(reader)@, screen::parse_nav_bar(old(reader)@)),
{
    reveal(screen::parse_nav_bar);
    let flag: u8 = reader.u8()?;
    if flag == 0 {
        return Ok(None);
    }
    if flag != 1 && flag != 2 {
        return Err(ProtocolError::InvalidValue("nav bar flag"));
    }
    let style = if flag == 1 {
        BarStyle::Navigation
    } else {
        BarStyle::Actions
    };
    let id = NodeId(reader.u32()?);
    let count: u8 = reader.u8()?;
    let selected: u8 = reader.u8()?;
    let destinations = read_all::<BarAction>(reader, count as usize)?;
    if destinations.len() < MIN_NAV_DESTINATIONS {
        return Err(ProtocolError::InvalidValue("nav bar destinations"));
    }
    let selected = if selected == NAV_SELECTION_NONE {
        None
    } else if (selected as usize) < destinations.len() {
        Some(selected as usize)
    } else {
        Some(destinations.len() - 1)
    };
    Ok(Some(NavBar { id, destinations, selected, style }))
}

fn read_bottom(reader: &mut Reader<'_>) -> (result: Result<Option<BottomAction>, ProtocolError>)
    ensures
        wire::finds(result, final(reader)@, screen::parse_bottom(old(reader)@)),
{
    reveal(screen::parse_bottom);
    let flag: u8 = reader.u8()?;
    if flag == 0 {
        Ok(None)
    } else if flag == 1 {
        let id = NodeId(reader.u32()?);
        let action = BarAction::read(reader)?;
        Ok(Some(BottomAction { id, action }))
    } else {
        Err(ProtocolError::InvalidValue("bottom action flag"))
    }
}

fn read_position(reader: &mut Reader<'_>) -> (result: Result<Option<(u16, u16)>, ProtocolError>)
    ensures
        wire::yields(result, final(reader)@, screen::parse_position(old(reader)@)),
{
    let flag: u8 = reader.u8()?;
    if flag == 0 {
        Ok(None)
    } else if flag == 1 {
        let page: u16 = reader.u16()?;
        let of: u16 = reader.u16()?;
        Ok(Some((page, of)))
    } else {
        Err(ProtocolError::InvalidValue("page position flag"))
    }
}

fn read_turns(reader: &mut Reader<'_>) -> (result: Result<Option<PageTurns>, ProtocolError>)
    ensures
        wire::yields(result, final(reader)@, screen::parse_turns(old(reader)@)),
{
    reveal(screen::parse_turns);
    let flag: u8 = reader.u8()?;
    if flag == 0 {
        return Ok(None);
    }
    if flag != 1 && flag != 2 {
        return Err(ProtocolError::InvalidValue("page turn flag"));
    }
    let previous = ActionId(reader.u32()?);
    let next = ActionId(reader.u32()?);
    let menu = if flag == 1 {
        None
    } else {
        Some(ActionId(reader.u32()?))
    };
    let position = read_position(reader)?;
    Ok(Some(PageTurns { previous, next, menu, position }))
}

fn read_word(reader: &mut Reader<'_>, name: &'static str) -> (result: Result<
    Option<u32>,
    ProtocolError,
>)
    ensures
        wire::yields(result, final(reader)@, screen::parse_word(old(reader)@, name)),
{
    let flag: u8 = reader.u8()?;
    if flag == 0 {
        Ok(None)
    } else if flag == 1 {
        let word: u32 = reader.u32()?;
        Ok(Some(word))
    } else {
        Err(ProtocolError::InvalidValue(name))
    }
}

fn read_scale(reader: &mut Reader<'_>) -> (result: Result<Option<TextScale>, ProtocolError>)
    ensures
        wire::yields(result, final(reader)@, screen::parse_scale(old(reader)@)),
{
    let value: u8 = reader.u8()?;
    match value {
        0 => Ok(None),
        1 => Ok(Some(TextScale::Default)),
        2 => Ok(Some(TextScale::Large)),
        3 => Ok(Some(TextScale::ExtraLarge)),
        _ => Err(ProtocolError::InvalidValue("text scale")),
    }
}

pub fn decode_reading_surface(reader: &mut Reader<'_>) -> (result: Result<
    Option<ReadingSurface>,
    ProtocolError,
>)
    ensures
        wire::yields(result, final(reader)@, screen::parse_surface(old(reader)@)),
{
    let mode: u8 = reader.u8()?;
    if mode == 0 {
        return Ok(None);
    }
    if mode != 1 && mode != 2 {
        return Err(ProtocolError::InvalidValue("reading surface flag"));
    }
    let id = NodeId(reader.u32()?);
    let handle = PictureHandle(reader.u32()?);
    let width: u32 = reader.u32()?;
    let height: u32 = reader.u32()?;
    let chrome = if mode == 1 {
        ReadingChrome::Hidden
    } else {
        ReadingChrome::Overlay
    };
    Ok(
        Some(
            ReadingSurface { id, picture: TilePicture { handle, source: (width, height) }, chrome },
        ),
    )
}

fn read_habits(reader: &mut Reader<'_>) -> (result: Result<Habits, ProtocolError>)
    ensures
        wire::yields(result, final(reader)@, screen::parse_habits(old(reader)@)),
{
    reveal(screen::parse_habits);
    let hold = match read_word(reader, "hold flag")? {
        None => None,
        Some(word) => Some(ActionId(word)),
    };
    let owns_back = reader.flag("own back flag")?;
    let text_scale = read_scale(reader)?;
    let reading = reader.flag("reading flag")?;
    let reading_font = match read_word(reader, "reading font flag")? {
        None => None,
        Some(word) => Some(FontHandle(word)),
    };
    let reading_surface = decode_reading_surface(reader)?;
    Ok(Habits { hold, owns_back, text_scale, reading, reading_font, reading_surface })
}

/// Whether reading what covers a screen did what its model says.
pub open spec fn reads_overlay(
    result: Result<Option<Box<Overlay>>, ProtocolError>,
    count: usize,
    left: Seq<u8>,
    parsed: wire::Parsed<(Option<OverlayModel>, int)>,
) -> bool {
    match (result, parsed) {
        (Ok(overlay), Ok(((model, nodes), rest))) => overlay_model(overlay) == model && count
            == nodes && count <= MAX_NODES && left == rest,
        (Err(error), Err(expected)) => error == expected,
        _ => false,
    }
}

fn read_overlay(reader: &mut Reader<'_>, depth: usize, count: &mut usize) -> (result: Result<
    Option<Box<Overlay>>,
    ProtocolError,
>)
    requires
        *old(count) <= MAX_NODES,
        depth <= MAX_DEPTH,
    ensures
        reads_overlay(
            result,
            *final(count),
            final(reader)@,
            screen::parse_overlay(old(reader)@, depth as int, *old(count) as int),
        ),
{
    reveal(screen::parse_overlay);
    let flag: u8 = reader.u8()?;
    if flag == 0 {
        return Ok(None);
    }
    if flag != 1 {
        return Err(ProtocolError::InvalidValue("overlay flag"));
    }
    let id = NodeId(reader.u32()?);
    let tag: u8 = reader.u8()?;
    let kind = match tag {
        0 => OverlayKind::Modal,
        1 => OverlayKind::Popover { anchor: ActionId(reader.u32()?) },
        _ => return Err(ProtocolError::InvalidValue("overlay kind")),
    };
    let title = reader.string()?;
    let wanted: u16 = reader.u16()?;
    if wanted as usize > MAX_NODES {
        return Err(ProtocolError::TooManyNodes);
    }
    let nodes = read_nodes(reader, wanted as usize, depth, count)?;
    Ok(Some(Box::new(Overlay { id, kind, title, nodes })))
}

/// Reads a screen.
pub fn read_screen(reader: &mut Reader<'_>, depth: usize, count: &mut usize) -> (result: Result<
    Screen,
    ProtocolError,
>)
    requires
        *old(count) <= MAX_NODES,
        depth <= MAX_DEPTH,
    ensures
        node_codec::reads_counted(
            result,
            *final(count),
            final(reader)@,
            screen::parse_screen(old(reader)@, depth as int, *old(count) as int),
        ),
{
    let id: u32 = reader.u32()?;
    let top_bar = read_top_bar(reader)?;
    let nav_bar = read_nav_bar(reader)?;
    let bottom = read_bottom(reader)?;
    let page_turns = read_turns(reader)?;
    let habits = read_habits(reader)?;
    let wanted: u16 = reader.u16()?;
    if wanted as usize > MAX_NODES {
        return Err(ProtocolError::TooManyNodes);
    }
    let nodes = read_nodes(reader, wanted as usize, depth, count)?;
    let overlay = read_overlay(reader, depth, count)?;
    let bottom_action = if nav_bar.is_none() {
        bottom
    } else {
        None
    };
    Ok(
        Screen {
            id,
            top_bar,
            reading_surface: habits.reading_surface,
            nodes,
            nav_bar,
            bottom_action,
            page_turns,
            hold: habits.hold,
            owns_back: habits.owns_back,
            text_scale: habits.text_scale,
            overlay,
            reading: habits.reading,
            reading_font: habits.reading_font,
        },
    )
}

} // verus!
