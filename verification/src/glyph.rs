//! The built-in icons and their wire tags.

use vstd::prelude::*;

verus! {

/// One of the built-in icons.
#[derive(Clone, Copy, Debug, PartialEq, Eq, Structural)]
pub enum Glyph {
    App,
    Book,
    Note,
    Clock,
    Settings,
    Folder,
    Chart,
    Search,
    Wifi,
    Battery,
    Reader,
    Power,
    Grid,
    Circle,
    Check,
    Terminal,
    Chat,
    News,
    Rss,
    Light,
    Close,
    Download,
    Bookmark,
    Filter,
    Person,
    Tag,
    Globe,
    Refresh,
    More,
    Bluetooth,
    Key,
    Magnet,
    Play,
    Pause,
    Rewind30,
    Forward30,
    VolumeDown,
    VolumeUp,
    MoreVertical,
    Trash,
    Previous,
    Next,
    Plus,
    Headphones,
    Minus,
}

/// The byte an icon is written as.
pub open spec fn glyph_tag(glyph: Glyph) -> u8 {
    match glyph {
        Glyph::App => 0,
        Glyph::Book => 1,
        Glyph::Note => 2,
        Glyph::Clock => 3,
        Glyph::Settings => 4,
        Glyph::Folder => 5,
        Glyph::Chart => 6,
        Glyph::Search => 7,
        Glyph::Wifi => 8,
        Glyph::Battery => 9,
        Glyph::Reader => 10,
        Glyph::Power => 11,
        Glyph::Grid => 12,
        Glyph::Circle => 13,
        Glyph::Check => 14,
        Glyph::Terminal => 15,
        Glyph::Chat => 16,
        Glyph::News => 17,
        Glyph::Rss => 18,
        Glyph::Light => 19,
        Glyph::Close => 20,
        Glyph::Download => 21,
        Glyph::Bookmark => 22,
        Glyph::Filter => 23,
        Glyph::Person => 24,
        Glyph::Tag => 25,
        Glyph::Globe => 26,
        Glyph::Refresh => 27,
        Glyph::More => 28,
        Glyph::Bluetooth => 29,
        Glyph::Key => 30,
        Glyph::Magnet => 31,
        Glyph::Play => 32,
        Glyph::Pause => 33,
        Glyph::Rewind30 => 34,
        Glyph::Forward30 => 35,
        Glyph::VolumeDown => 36,
        Glyph::VolumeUp => 37,
        Glyph::MoreVertical => 38,
        Glyph::Trash => 39,
        Glyph::Previous => 40,
        Glyph::Next => 41,
        Glyph::Plus => 42,
        Glyph::Headphones => 43,
        Glyph::Minus => 44,
    }
}

pub open spec fn is_glyph_tag(tag: u8) -> bool {
    tag <= 44
}

/// The icon with the given tag.
pub open spec fn glyph_of(tag: u8) -> Option<Glyph> {
    if is_glyph_tag(tag) {
        Some(choose|glyph: Glyph| glyph_tag(glyph) == tag)
    } else {
        None
    }
}

/// No two icons share a tag, and every icon's tag is one.
pub proof fn law_glyph_tags_differ(a: Glyph, b: Glyph)
    ensures
        is_glyph_tag(glyph_tag(a)),
        glyph_tag(a) == glyph_tag(b) ==> a == b,
{
}

/// The icon written under a tag is the one read back from it.
pub broadcast proof fn lemma_glyph_read_back(glyph: Glyph)
    ensures
        glyph_of(#[trigger] glyph_tag(glyph)) == Some(glyph),
{
    let back = choose|other: Glyph| glyph_tag(other) == glyph_tag(glyph);
    assert(glyph_tag(back) == glyph_tag(glyph));
}

pub fn encode_glyph(glyph: Glyph) -> (tag: u8)
    ensures
        tag == glyph_tag(glyph),
{
    match glyph {
        Glyph::App => 0,
        Glyph::Book => 1,
        Glyph::Note => 2,
        Glyph::Clock => 3,
        Glyph::Settings => 4,
        Glyph::Folder => 5,
        Glyph::Chart => 6,
        Glyph::Search => 7,
        Glyph::Wifi => 8,
        Glyph::Battery => 9,
        Glyph::Reader => 10,
        Glyph::Power => 11,
        Glyph::Grid => 12,
        Glyph::Circle => 13,
        Glyph::Check => 14,
        Glyph::Terminal => 15,
        Glyph::Chat => 16,
        Glyph::News => 17,
        Glyph::Rss => 18,
        Glyph::Light => 19,
        Glyph::Close => 20,
        Glyph::Download => 21,
        Glyph::Bookmark => 22,
        Glyph::Filter => 23,
        Glyph::Person => 24,
        Glyph::Tag => 25,
        Glyph::Globe => 26,
        Glyph::Refresh => 27,
        Glyph::More => 28,
        Glyph::Bluetooth => 29,
        Glyph::Key => 30,
        Glyph::Magnet => 31,
        Glyph::Play => 32,
        Glyph::Pause => 33,
        Glyph::Rewind30 => 34,
        Glyph::Forward30 => 35,
        Glyph::VolumeDown => 36,
        Glyph::VolumeUp => 37,
        Glyph::MoreVertical => 38,
        Glyph::Trash => 39,
        Glyph::Previous => 40,
        Glyph::Next => 41,
        Glyph::Plus => 42,
        Glyph::Headphones => 43,
        Glyph::Minus => 44,
    }
}

/// The icon behind a tag, refused rather than guessed when there is none.
pub fn decode_glyph(tag: u8) -> (glyph: Option<Glyph>)
    ensures
        glyph == glyph_of(tag),
{
    broadcast use lemma_glyph_read_back;

    let glyph = match tag {
        0 => Glyph::App,
        1 => Glyph::Book,
        2 => Glyph::Note,
        3 => Glyph::Clock,
        4 => Glyph::Settings,
        5 => Glyph::Folder,
        6 => Glyph::Chart,
        7 => Glyph::Search,
        8 => Glyph::Wifi,
        9 => Glyph::Battery,
        10 => Glyph::Reader,
        11 => Glyph::Power,
        12 => Glyph::Grid,
        13 => Glyph::Circle,
        14 => Glyph::Check,
        15 => Glyph::Terminal,
        16 => Glyph::Chat,
        17 => Glyph::News,
        18 => Glyph::Rss,
        19 => Glyph::Light,
        20 => Glyph::Close,
        21 => Glyph::Download,
        22 => Glyph::Bookmark,
        23 => Glyph::Filter,
        24 => Glyph::Person,
        25 => Glyph::Tag,
        26 => Glyph::Globe,
        27 => Glyph::Refresh,
        28 => Glyph::More,
        29 => Glyph::Bluetooth,
        30 => Glyph::Key,
        31 => Glyph::Magnet,
        32 => Glyph::Play,
        33 => Glyph::Pause,
        34 => Glyph::Rewind30,
        35 => Glyph::Forward30,
        36 => Glyph::VolumeDown,
        37 => Glyph::VolumeUp,
        38 => Glyph::MoreVertical,
        39 => Glyph::Trash,
        40 => Glyph::Previous,
        41 => Glyph::Next,
        42 => Glyph::Plus,
        43 => Glyph::Headphones,
        44 => Glyph::Minus,
        _ => return None,
    };
    assert(glyph_tag(glyph) == tag);
    Some(glyph)
}

impl Glyph {
    /// Every icon, in the order of their tags.
    pub fn all() -> (all: Vec<Glyph>)
        ensures
            forall|glyph: Glyph| all@.contains(glyph),
            forall|i: int| 0 <= i < all@.len() ==> glyph_tag(#[trigger] all@[i]) == i,
    {
        let all = vec![
            Glyph::App,
            Glyph::Book,
            Glyph::Note,
            Glyph::Clock,
            Glyph::Settings,
            Glyph::Folder,
            Glyph::Chart,
            Glyph::Search,
            Glyph::Wifi,
            Glyph::Battery,
            Glyph::Reader,
            Glyph::Power,
            Glyph::Grid,
            Glyph::Circle,
            Glyph::Check,
            Glyph::Terminal,
            Glyph::Chat,
            Glyph::News,
            Glyph::Rss,
            Glyph::Light,
            Glyph::Close,
            Glyph::Download,
            Glyph::Bookmark,
            Glyph::Filter,
            Glyph::Person,
            Glyph::Tag,
            Glyph::Globe,
            Glyph::Refresh,
            Glyph::More,
            Glyph::Bluetooth,
            Glyph::Key,
            Glyph::Magnet,
            Glyph::Play,
            Glyph::Pause,
            Glyph::Rewind30,
            Glyph::Forward30,
            Glyph::VolumeDown,
            Glyph::VolumeUp,
            Glyph::MoreVertical,
            Glyph::Trash,
            Glyph::Previous,
            Glyph::Next,
            Glyph::Plus,
            Glyph::Headphones,
            Glyph::Minus,
        ];
        assert forall|glyph: Glyph| all@.contains(glyph) by {
            assert(all@[glyph_tag(glyph) as int] == glyph);
        }
        all
    }
}

} // verus!
