//! What the parts of a screen say once they were made, and what making more of
//! one changes.

use vstd::prelude::*;

use crate::glyph::Glyph;
use crate::item;
use crate::metadata::{AppIcon, AppMetadata};
use crate::task::{Credential, Header, SecretHeaderModel};
use crate::ui;
use crate::ui::{
    ActionId, BandSlot, BarAction, BottomAction, Caret, Cell, Chip, FontHandle, Freeform, NavBar,
    Node, NodeId, Overlay, OverlayKind, PageTurns, Percent, PictureHandle, ReadingChrome,
    ReadingSurface, Row, RowLead, RowModel, RowState, Screen, ScreenModel, SlotWidth, TextScale,
    Tile, TileModel, TilePicture, TileState, TopBar,
};

verus! {

/// A share is the one asked for, up to all of it, and one action belongs to the
/// runtime: going back, which is the last there is.
pub proof fn law_shares_and_actions(value: u8, percent: Percent, action: ActionId, flag: bool)
    ensures
        call_ensures(Percent::new, (value,), percent) ==> percent.value == if value <= 100 {
            value
        } else {
            100
        },
        call_ensures(Percent::get, (percent,), value) ==> value == percent.value,
        call_ensures(ActionId::back, (), action) ==> action.0 == 4_294_967_295,
        call_ensures(ActionId::is_reserved, (action,), flag) ==> (flag <==> action.0
            == 4_294_967_295),
{
}

/// A picture is its handle and its size, width first; a caret is its row and its
/// column.
pub proof fn law_pictures_and_carets(
    handle: PictureHandle,
    width: u32,
    height: u32,
    picture: TilePicture,
    row: u16,
    column: u16,
    caret: Caret,
)
    ensures
        call_ensures(TilePicture::new, (handle, width, height), picture) ==> picture.handle
            == handle && picture.source.0 == width && picture.source.1 == height,
        call_ensures(Caret::new, (row, column), caret) ==> caret.row == row && caret.column
            == column,
{
}

/// A control does its action under its label, bare until it was given a mark,
/// and a mark changes nothing else.
pub proof fn law_controls_are_what_was_given(
    action: ActionId,
    label: &str,
    glyph: Glyph,
    flag: bool,
    control: BarAction,
    marked: BarAction,
    chip: Chip,
    chosen: Chip,
    cell: Cell,
    iconed: Cell,
)
    ensures
        call_ensures(BarAction::new, (action, label), control) ==> control@.action == action
            && control@.label == label@ && control@.glyph is None,
        call_ensures(BarAction::with_glyph, (control, glyph), marked) ==> marked@.glyph == Some(
            glyph,
        ) && marked@.action == control@.action && marked@.label == control@.label,
        call_ensures(Chip::new, (action, label), chip) ==> chip@.action == action && chip@.label
            == label@ && !chip@.selected,
        call_ensures(Chip::selected, (chip, flag), chosen) ==> chosen@.selected == flag
            && chosen@.action == chip@.action && chosen@.label == chip@.label,
        call_ensures(Cell::new, (action, label), cell) ==> cell@.action == action && cell@.label
            == label@ && cell@.glyph is None,
        call_ensures(Cell::with_glyph, (cell, glyph), iconed) ==> iconed@.glyph == Some(glyph)
            && iconed@.action == cell@.action && iconed@.label == cell@.label,
{
}

/// A row has its action, its title, its summary and its lead, and is open and
/// bare; each thing it is given then is that thing alone.
pub proof fn law_rows_are_what_was_given(
    action: ActionId,
    title: &str,
    summary: &str,
    lead: RowLead,
    state: RowState,
    done: bool,
    row: Row,
    after: Row,
)
    ensures
        call_ensures(Row::new, (action, title, summary, lead), row) ==> {
            &&& row@.action == action
            &&& row@.title == title@
            &&& row@.summary == summary@
            &&& row@.lead == lead
            &&& row@.state is Open
            &&& row@.trailing is None
            &&& row@.menu is None
        },
        call_ensures(Row::with_state, (row, state), after) ==> after@ == (RowModel {
            state,
            ..row@
        }),
        call_ensures(Row::done, (row, done), after) ==> (after@.state is Done <==> done) && after@
            == (RowModel { state: after@.state, ..row@ }),
        call_ensures(Row::with_trailing, (row, title), after) ==> after@ == (RowModel {
            trailing: Some(title@),
            ..row@
        }),
        call_ensures(Row::with_menu, (row, action), after) ==> after@ == (RowModel {
            menu: Some(action),
            ..row@
        }),
{
}

/// A tile has its action, its label and its icon, and is bare; each thing it is
/// given then is that thing alone.
pub proof fn law_tiles_are_what_was_given(
    action: ActionId,
    label: &str,
    glyph: Glyph,
    picture: TilePicture,
    state: TileState,
    tile: Tile,
    after: Tile,
)
    ensures
        call_ensures(Tile::new, (action, label, glyph), tile) ==> {
            &&& tile@.action == action
            &&& tile@.label == label@
            &&& tile@.glyph == glyph
            &&& tile@.picture is None
            &&& tile@.state is Normal
            &&& tile@.badge.len() == 0
            &&& tile@.subtitle.len() == 0
        },
        call_ensures(Tile::with_picture, (tile, picture), after) ==> after@ == (TileModel {
            picture: Some(picture),
            ..tile@
        }),
        call_ensures(Tile::with_state, (tile, state), after) ==> after@ == (TileModel {
            state,
            ..tile@
        }),
        call_ensures(Tile::with_badge, (tile, label), after) ==> after@ == (TileModel {
            badge: label@,
            ..tile@
        }),
        call_ensures(Tile::with_subtitle, (tile, label), after) ==> after@ == (TileModel {
            subtitle: label@,
            ..tile@
        }),
{
}

/// The tile of an application has its name and its icon: a glyph alone, or a
/// picture with the glyph to fall back on.
pub proof fn law_application_tiles_show_their_icon(
    app: AppMetadata,
    action: ActionId,
    glyph: Glyph,
    picture: TilePicture,
    icon: AppIcon,
    tile: Tile,
)
    ensures
        call_ensures(AppIcon::glyph, (glyph,), icon) ==> icon == AppIcon::Glyph(glyph),
        call_ensures(AppIcon::picture, (picture, glyph), icon) ==> icon == (AppIcon::Picture {
            picture,
            fallback: glyph,
        }),
        call_ensures(AppMetadata::tile, (app, action), tile) ==> {
            &&& tile@.action == action
            &&& tile@.label == app.display_name@
            &&& app.icon matches AppIcon::Glyph(mark) ==> tile@.glyph == mark && tile@.picture
                is None
            &&& app.icon matches AppIcon::Picture { picture: cover, fallback } ==> tile@.glyph
                == fallback && tile@.picture == Some(cover)
            &&& tile@.state is Normal
            &&& tile@.badge.len() == 0
            &&& tile@.subtitle.len() == 0
        },
{
}

/// A column holds its nodes in the width it was made for.
pub proof fn law_columns_are_what_was_given(
    width: SlotWidth,
    tenths: u16,
    nodes: Vec<Node>,
    slot: BandSlot,
)
    ensures
        call_ensures(BandSlot::new, (width, nodes), slot) ==> slot@.width == width && slot@.nodes
            == ui::node_models(nodes@),
        call_ensures(BandSlot::fixed, (tenths, nodes), slot) ==> slot@.width == SlotWidth::Fixed(
            tenths,
        ) && slot@.nodes == ui::node_models(nodes@),
        call_ensures(BandSlot::fill, (nodes,), slot) ==> slot@.width is Fill && slot@.nodes
            == ui::node_models(nodes@),
        call_ensures(BandSlot::natural, (nodes,), slot) ==> slot@.width is Natural && slot@.nodes
            == ui::node_models(nodes@),
{
}

/// A bar at the top has its title, and its controls in the order it was given
/// them; a bar at the bottom has its places, and says where the reader is, or its
/// verbs, and does not; a control at the bottom is the one it was given.
pub proof fn law_bars_are_what_was_given(
    id: NodeId,
    title: &str,
    action: ActionId,
    control: BarAction,
    controls: Vec<BarAction>,
    selected: Option<usize>,
    top: TopBar,
    fuller: TopBar,
    nav: NavBar,
    bottom: BottomAction,
)
    ensures
        call_ensures(TopBar::new, (id, title), top) ==> top@.id == id && top@.title == title@
            && top@.actions.len() == 0,
        call_ensures(TopBar::with_action, (top, control), fuller) ==> fuller@.id == top@.id
            && fuller@.title == top@.title && fuller@.actions == top@.actions.push(control@),
        call_ensures(TopBar::action, (top, action, title), fuller) ==> {
            &&& fuller@.id == top@.id
            &&& fuller@.title == top@.title
            &&& fuller@.actions.len() == top@.actions.len() + 1
            &&& fuller@.actions.last().action == action
            &&& fuller@.actions.last().label == title@
            &&& fuller@.actions.last().glyph is None
        },
        call_ensures(NavBar::new, (id, controls, selected), nav) ==> {
            &&& nav@.id == id
            &&& nav@.destinations == item::models(controls@)
            &&& nav@.selected == selected
            &&& nav@.style is Navigation
        },
        call_ensures(NavBar::actions, (id, controls), nav) ==> {
            &&& nav@.id == id
            &&& nav@.destinations == item::models(controls@)
            &&& nav@.selected is None
            &&& nav@.style is Actions
        },
        call_ensures(BottomAction::new, (id, control), bottom) ==> bottom@.id == id
            && bottom@.action == control@,
{
}

/// What covers a screen holds its nodes under its title; a menu hangs off its
/// anchor and closes when a tap misses it, and a question stays.
pub proof fn law_covers_are_what_was_given(
    id: NodeId,
    anchor: ActionId,
    title: &str,
    nodes: Vec<Node>,
    cover: Overlay,
    dismissed: bool,
)
    ensures
        call_ensures(Overlay::modal, (id, title, nodes), cover) ==> {
            &&& cover@.id == id
            &&& cover@.kind is Modal
            &&& cover@.title == title@
            &&& cover@.nodes == ui::node_models(nodes@)
        },
        call_ensures(Overlay::popover, (id, anchor, title, nodes), cover) ==> {
            &&& cover@.id == id
            &&& cover@.kind == (OverlayKind::Popover { anchor })
            &&& cover@.title == title@
            &&& cover@.nodes == ui::node_models(nodes@)
        },
        call_ensures(Overlay::dismissed_by_a_miss, (&cover,), dismissed) ==> (dismissed
            <==> cover@.kind is Popover),
{
}

/// The sides of a page go back by the first action and on by the second; a menu
/// and a position are given each for itself.
pub proof fn law_sides_are_what_was_given(
    previous: ActionId,
    next: ActionId,
    menu: ActionId,
    page: u16,
    of: u16,
    turns: PageTurns,
    after: PageTurns,
)
    ensures
        call_ensures(PageTurns::new, (previous, next), turns) ==> {
            &&& turns.previous == previous
            &&& turns.next == next
            &&& turns.menu is None
            &&& turns.position is None
        },
        call_ensures(PageTurns::with_menu, (turns, menu), after) ==> {
            &&& after.previous == turns.previous
            &&& after.next == turns.next
            &&& after.menu == Some(menu)
            &&& after.position == turns.position
        },
        call_ensures(PageTurns::with_position, (turns, page, of), after) ==> {
            &&& after.previous == turns.previous
            &&& after.next == turns.next
            &&& after.menu == turns.menu
            &&& after.position == Some((page, of))
        },
{
}

/// A screen starts with its nodes and nothing around them; each thing it is given
/// then is that thing alone.
pub proof fn law_screens_are_what_was_given(
    id: u32,
    nodes: Vec<Node>,
    top: TopBar,
    nav: NavBar,
    bottom: BottomAction,
    action: ActionId,
    other: ActionId,
    flag: bool,
    scale: Option<TextScale>,
    font: Option<FontHandle>,
    surface: Option<ReadingSurface>,
    cover: Overlay,
    screen: Screen,
    after: Screen,
)
    ensures
        call_ensures(Screen::new, (id, nodes), screen) ==> {
            &&& screen@.id == id
            &&& screen@.nodes == ui::node_models(nodes@)
            &&& screen@.top_bar is None
            &&& screen@.reading_surface is None
            &&& screen@.nav_bar is None
            &&& screen@.bottom_action is None
            &&& screen@.page_turns is None
            &&& screen@.hold is None
            &&& !screen@.owns_back
            &&& screen@.text_scale is None
            &&& screen@.overlay is None
            &&& !screen@.reading
            &&& screen@.reading_font is None
        },
        call_ensures(Screen::with_top_bar, (screen, top), after) ==> after@ == (ScreenModel {
            top_bar: Some(top@),
            ..screen@
        }),
        call_ensures(Screen::with_nav_bar, (screen, nav), after) ==> after@ == (ScreenModel {
            nav_bar: Some(nav@),
            ..screen@
        }),
        call_ensures(Screen::with_bottom_action, (screen, bottom), after) ==> after@
            == (ScreenModel { bottom_action: Some(bottom@), ..screen@ }),
        call_ensures(Screen::with_page_turns, (screen, action, other), after) ==> {
            &&& after@.page_turns matches Some(turns)
            &&& turns.previous == action
            &&& turns.next == other
            &&& turns.menu is None
            &&& turns.position is None
            &&& after@ == (ScreenModel { page_turns: after@.page_turns, ..screen@ })
        },
        call_ensures(Screen::with_hold, (screen, action), after) ==> after@ == (ScreenModel {
            hold: Some(action),
            ..screen@
        }),
        call_ensures(Screen::with_own_back, (screen, flag), after) ==> after@ == (ScreenModel {
            owns_back: flag,
            ..screen@
        }),
        call_ensures(Screen::with_text_scale, (screen, scale), after) ==> after@ == (ScreenModel {
            text_scale: scale,
            ..screen@
        }),
        call_ensures(Screen::with_reading, (screen, flag), after) ==> after@ == (ScreenModel {
            reading: flag,
            ..screen@
        }),
        call_ensures(Screen::with_reading_font, (screen, font), after) ==> after@ == (ScreenModel {
            reading_font: font,
            ..screen@
        }),
        call_ensures(Screen::with_reading_surface, (screen, surface), after) ==> after@
            == (ScreenModel { reading_surface: surface, ..screen@ }),
        call_ensures(Screen::with_overlay, (screen, cover), after) ==> after@ == (ScreenModel {
            overlay: Some(cover@),
            ..screen@
        }),
{
}

/// A surface shows the picture it was given in the chrome it was given, and a
/// question takes words under the hint it was given.
pub proof fn law_surfaces_and_words(
    id: NodeId,
    picture: TilePicture,
    chrome: ReadingChrome,
    surface: ReadingSurface,
    action: ActionId,
    hint: &str,
    words: Freeform,
)
    ensures
        call_ensures(ReadingSurface::new, (id, picture, chrome), surface) ==> surface.id == id
            && surface.picture == picture && surface.chrome == chrome,
        call_ensures(Freeform::new, (action, hint), words) ==> words@.action == action
            && words@.placeholder == hint@,
{
}

/// A header has its name and its value; a credential is the secret it was given,
/// sent in the usual header unless it names one.
pub proof fn law_headers_and_credentials(
    name: &str,
    value: &str,
    header: Header,
    credential: Credential,
    sent_in: &str,
)
    ensures
        call_ensures(Header::new, (name, value), header) ==> header@.name == name@ && header@.value
            == value@,
        call_ensures(Credential::bearer, (name,), credential) ==> credential@.secret == name@
            && credential@.header is Bearer,
        call_ensures(Credential::basic, (name,), credential) ==> credential@.secret == name@
            && credential@.header is Basic,
        call_ensures(Credential::in_header, (name, value), credential) ==> credential@.secret
            == name@ && credential@.header == SecretHeaderModel::Named(value@),
        call_ensures(Credential::header_name, (&credential,), sent_in) ==> {
            &&& credential@.header matches SecretHeaderModel::Named(own) ==> sent_in@ == own
            &&& !(credential@.header is Named) ==> sent_in@ == "Authorization"@
        },
{
}

} // verus!
