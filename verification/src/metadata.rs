//! What an application is called and what it looks like on a launcher.

use vstd::prelude::*;

use crate::glyph::Glyph;
use crate::ui::{ActionId, Tile, TileModel, TilePicture, TileState};

verus! {

/// An application icon that remains legible when an image is unavailable.
#[derive(Clone, Copy, Debug, PartialEq, Eq)]
pub enum AppIcon {
    Glyph(Glyph),
    Picture { picture: TilePicture, fallback: Glyph },
}

impl AppIcon {
    /// The tile that shows this icon.
    pub open spec fn tile_model(self, action: ActionId, label: Seq<char>) -> TileModel {
        TileModel {
            action,
            label,
            glyph: match self {
                AppIcon::Glyph(glyph) => glyph,
                AppIcon::Picture { picture, fallback } => fallback,
            },
            picture: match self {
                AppIcon::Glyph(glyph) => None,
                AppIcon::Picture { picture, fallback } => Some(picture),
            },
            state: TileState::Normal,
            badge: Seq::empty(),
            subtitle: Seq::empty(),
        }
    }

    #[must_use]
    pub fn glyph(glyph: Glyph) -> (icon: AppIcon)
        ensures
            icon == AppIcon::Glyph(glyph),
    {
        AppIcon::Glyph(glyph)
    }

    #[must_use]
    pub fn picture(picture: TilePicture, fallback: Glyph) -> (icon: AppIcon)
        ensures
            icon == (AppIcon::Picture { picture, fallback }),
    {
        AppIcon::Picture { picture, fallback }
    }

    fn tile(self, action: ActionId, label: &str) -> (tile: Tile)
        ensures
            tile@ == self.tile_model(action, label@),
    {
        match self {
            AppIcon::Glyph(glyph) => Tile::new(action, label, glyph),
            AppIcon::Picture { picture, fallback } => Tile::new(action, label, fallback)
                .with_picture(picture),
        }
    }
}

/// What an application says of itself.
#[derive(Clone, Copy, Debug, PartialEq, Eq)]
pub struct AppMetadata {
    pub id: &'static str,
    pub display_name: &'static str,
    pub summary: &'static str,
    pub icon: AppIcon,
}

impl AppMetadata {
    #[must_use]
    pub fn new(
        id: &'static str,
        display_name: &'static str,
        summary: &'static str,
        icon: AppIcon,
    ) -> (metadata: AppMetadata)
        ensures
            metadata == (AppMetadata { id, display_name, summary, icon }),
    {
        AppMetadata { id, display_name, summary, icon }
    }

    /// The tile that opens the application.
    #[must_use]
    pub fn tile(self, action: ActionId) -> (tile: Tile)
        ensures
            tile@ == self.icon.tile_model(action, self.display_name@),
    {
        self.icon.tile(action, self.display_name)
    }
}

} // verus!
