//! How much of a panel is left for content.

use vstd::prelude::*;

verus! {

/// Where a paginated screen tells the reader which page they are on.
#[derive(Clone, Copy, Debug, PartialEq, Eq, Structural)]
pub enum Position {
    /// In the strip under the list.
    AtTheFoot,
    /// Anywhere but there, so no strip is reserved.
    Elsewhere,
}

impl Default for Position {
    fn default() -> (position: Position)
        ensures
            position == Position::AtTheFoot,
    {
        Position::AtTheFoot
    }
}

/// The space content is set in: its size and the gap between two nodes.
#[derive(Clone, Copy, Debug, PartialEq, Eq, Structural)]
pub struct ProseArea {
    pub width: i32,
    pub height: i32,
    pub gap: i32,
}

/// The heights of the strips that are not content.
#[derive(Clone, Copy, Debug, PartialEq, Eq, Structural)]
pub struct Strips {
    /// The status line at the top.
    pub status: i32,
    /// The page position at the foot.
    pub position: i32,
}

/// What is left of a height after something took its share: never nothing, for
/// a page of no height would hold no rows and never end.
pub open spec fn less(height: int, share: int) -> int {
    if height - share < 1 {
        1
    } else if height - share > i32::MAX {
        i32::MAX as int
    } else {
        height - share
    }
}

impl ProseArea {
    /// The area after something took its share of the height.
    pub open spec fn without(self, share: int) -> ProseArea {
        ProseArea { height: less(self.height as int, share) as i32, ..self }
    }

    fn shortened(self, share: i64) -> (area: ProseArea)
        requires
            -0x2_0000_0000 <= share <= 0x2_0000_0000,
        ensures
            area == self.without(share as int),
    {
        let left: i64 = self.height as i64 - share;
        let height: i32 = if left < 1 {
            1
        } else if left > i32::MAX as i64 {
            i32::MAX
        } else {
            left as i32
        };
        ProseArea { width: self.width, height, gap: self.gap }
    }

    /// The area under the status line.
    pub open spec fn of_screen(self, strips: Strips) -> ProseArea {
        self.without(strips.status as int)
    }

    /// The area between the status line and the page position.
    pub open spec fn of_page(self, strips: Strips) -> ProseArea {
        self.of_screen(strips).without(strips.position as int)
    }

    /// The area a screen has for its content.
    #[must_use]
    pub fn screen_area(self, strips: Strips) -> (area: ProseArea)
        ensures
            area == self.of_screen(strips),
    {
        self.shortened(strips.status as i64)
    }

    /// The area a paginated screen has for its content.
    #[must_use]
    pub fn paged_area(self, strips: Strips) -> (area: ProseArea)
        ensures
            area == self.of_page(strips),
    {
        self.screen_area(strips).shortened(strips.position as i64)
    }

    /// The area a list has, by where the page position is said: a strip that
    /// nothing is drawn in is not reserved.
    #[must_use]
    pub fn area_for(self, strips: Strips, position: Position) -> (area: ProseArea)
        ensures
            area == match position {
                Position::AtTheFoot => self.of_page(strips),
                Position::Elsewhere => self.of_screen(strips),
            },
    {
        match position {
            Position::AtTheFoot => self.paged_area(strips),
            Position::Elsewhere => self.screen_area(strips),
        }
    }

    /// The area under a heading of this height, with a gap between the two.
    pub open spec fn below(self, heading: int) -> ProseArea {
        let height = i32_saturated(self.height - heading) as i32;
        ProseArea { height, ..self }.without(self.gap as int)
    }

    /// The area under a section heading.
    #[must_use]
    pub fn after_section(self, section_height: i32) -> (area: ProseArea)
        ensures
            area == self.below(section_height as int),
    {
        let left: i64 = self.height as i64 - section_height as i64;
        let height: i32 = if left < i32::MIN as i64 {
            i32::MIN
        } else if left > i32::MAX as i64 {
            i32::MAX
        } else {
            left as i32
        };
        ProseArea { width: self.width, height, gap: self.gap }.shortened(self.gap as i64)
    }

    /// The area under what was already placed, with a gap between the two.
    #[must_use]
    pub fn under(self, used: i32) -> (area: ProseArea)
        ensures
            area == self.without(i32_saturated(used + self.gap)),
    {
        let taken: i64 = used as i64 + self.gap as i64;
        let share: i64 = if taken < i32::MIN as i64 {
            i32::MIN as i64
        } else if taken > i32::MAX as i64 {
            i32::MAX as i64
        } else {
            taken
        };
        self.shortened(share)
    }
}

/// A number kept within 32 bits.
pub open spec fn i32_saturated(value: int) -> int {
    if value < i32::MIN {
        i32::MIN as int
    } else if value > i32::MAX {
        i32::MAX as int
    } else {
        value
    }
}

/// There is always a line of room, and reserving a strip never makes more of it.
pub proof fn law_there_is_always_room(area: ProseArea, strips: Strips)
    requires
        strips.position >= 0,
    ensures
        area.of_screen(strips).height >= 1,
        1 <= area.of_page(strips).height <= area.of_screen(strips).height,
{
}

/// What a strip, a heading or what was already placed takes is taken once, off
/// the height alone; where that would leave nothing, one line is left.
pub proof fn law_shares_are_taken_once(area: ProseArea, strips: Strips, taken: i32)
    ensures
        area.of_screen(strips).width == area.width,
        area.of_screen(strips).gap == area.gap,
        area.of_page(strips).width == area.width,
        area.of_page(strips).gap == area.gap,
        area.below(taken as int).width == area.width,
        area.below(taken as int).gap == area.gap,
        strips.status >= 0 && area.height - strips.status >= 1 ==> area.of_screen(strips).height
            == area.height - strips.status,
        strips.status >= 0 && area.height - strips.status < 1 ==> area.of_screen(strips).height
            == 1,
        strips.status >= 0 && strips.position >= 0 && area.height - strips.status
            - strips.position >= 1 ==> area.of_page(strips).height == area.height - strips.status
            - strips.position,
        strips.status >= 0 && strips.position >= 0 && area.height - strips.status
            - strips.position < 1 ==> area.of_page(strips).height == 1,
        taken >= 0 && area.gap >= 0 && area.height >= 0 && area.height - taken - area.gap >= 1
            ==> area.below(taken as int).height == area.height - taken - area.gap,
        taken >= 0 && area.gap >= 0 && area.height >= 0 && area.height - taken - area.gap < 1
            ==> area.below(taken as int).height == 1,
        taken >= 0 && area.gap >= 0 && area.height - taken - area.gap >= 1 ==> area.without(
            i32_saturated(taken + area.gap),
        ).height == area.height - taken - area.gap,
        taken >= 0 && area.gap >= 0 && area.height - taken - area.gap < 1 && taken + area.gap
            <= i32::MAX ==> area.without(i32_saturated(taken + area.gap)).height == 1,
{
}

} // verus!
