//! A back stack of an application's own destinations.

use vstd::prelude::*;

verus! {

/// A small, typed back stack.
///
/// The root can never be popped, so a handler can go back without
/// manufacturing an impossible case in which there is no current screen.
#[derive(Clone, Debug, PartialEq, Eq)]
pub struct Navigator<Route> {
    root: Route,
    stack: Vec<Route>,
}

impl<Route> View for Navigator<Route> {
    type V = Seq<Route>;

    /// Every destination from the root to the current one.
    closed spec fn view(&self) -> Seq<Route> {
        seq![self.root] + self.stack@
    }
}

/// Where a reader with this history is.
pub open spec fn here<Route>(history: Seq<Route>) -> Route {
    history.last()
}

/// A history with the current destination swapped for another.
pub open spec fn swapped<Route>(history: Seq<Route>, route: Route) -> Seq<Route> {
    history.drop_last().push(route)
}

/// A history after one step back: the root stays.
pub open spec fn stepped_back<Route>(history: Seq<Route>) -> Seq<Route> {
    if history.len() > 1 {
        history.drop_last()
    } else {
        history
    }
}

impl<Route> Navigator<Route> {
    #[must_use]
    pub fn new(root: Route) -> (navigator: Self)
        ensures
            navigator@ == seq![root],
    {
        Navigator { root, stack: Vec::new() }
    }

    #[must_use]
    pub fn current(&self) -> (route: &Route)
        ensures
            self@.len() >= 1,
            *route == here(self@),
    {
        let length: usize = self.stack.len();
        if length == 0 {
            &self.root
        } else {
            &self.stack[length - 1]
        }
    }

    #[must_use]
    pub fn can_go_back(&self) -> (can: bool)
        ensures
            can == (self@.len() > 1),
    {
        self.stack.len() != 0
    }

    /// How many destinations there are, the root among them.
    #[must_use]
    pub fn depth(&self) -> (depth: usize)
        requires
            self@.len() <= usize::MAX,
        ensures
            depth == self@.len(),
    {
        self.stack.len() + 1
    }

    pub fn push(&mut self, route: Route)
        ensures
            final(self)@ == old(self)@.push(route),
    {
        self.stack.push(route);
        assert(self@ =~= old(self)@.push(route));
    }

    /// Replaces the current destination without adding an entry.
    pub fn replace(&mut self, route: Route)
        ensures
            final(self)@ == swapped(old(self)@, route),
    {
        let length: usize = self.stack.len();
        if length == 0 {
            self.root = route;
        } else {
            self.stack.set(length - 1, route);
        }
        assert(self@ =~= swapped(old(self)@, route));
    }

    /// Returns to the previous destination, or leaves the root unchanged.
    #[must_use]
    pub fn back(&mut self) -> (moved: bool)
        ensures
            moved == (old(self)@.len() > 1),
            final(self)@ == stepped_back(old(self)@),
    {
        if self.can_go_back() {
            let _ = self.stack.pop();
            assert(self@ =~= stepped_back(old(self)@));
            true
        } else {
            false
        }
    }

    pub fn reset(&mut self, root: Route)
        ensures
            final(self)@ == seq![root],
    {
        self.stack.clear();
        self.root = root;
        assert(self@ =~= seq![root]);
    }
}

/// Going back undoes going somewhere.
pub proof fn law_back_undoes_push<Route>(history: Seq<Route>, route: Route)
    requires
        history.len() >= 1,
    ensures
        here(history.push(route)) == route,
        stepped_back(history.push(route)) == history,
{
    assert(history.push(route).drop_last() =~= history);
}

/// There is always a current destination, and only starting over or replacing
/// at the root changes what stands at the bottom.
pub proof fn law_the_root_stays<Route>(history: Seq<Route>, route: Route)
    requires
        history.len() >= 1,
    ensures
        stepped_back(history).len() >= 1,
        stepped_back(history)[0] == history[0],
        history.push(route)[0] == history[0],
        history.len() > 1 ==> swapped(history, route)[0] == history[0],
{
}

/// Replacing a destination goes there without making the way back longer.
pub proof fn law_replacing_keeps_the_way_back<Route>(history: Seq<Route>, route: Route)
    requires
        history.len() >= 1,
    ensures
        here(swapped(history, route)) == route,
        swapped(history, route).len() == history.len(),
        history.len() > 1 ==> stepped_back(swapped(history, route)) == stepped_back(history),
{
    assert(swapped(history, route).drop_last() =~= history.drop_last());
}

} // verus!
