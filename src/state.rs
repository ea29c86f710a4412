use vstd::prelude::*;
use crate::route::{after_pop, set_top, ActiveBlock, NavigationStack, Route, RouteId};

verus! {

/// One entry of the recently played list: the track that was played.
#[derive(Clone, Debug)]
pub struct PlayHistory {
    pub track_uri: String,
}

/// A fetched page of the recently played list.
#[derive(Clone, Debug)]
pub struct RecentlyPlayedPage {
    pub items: Vec<PlayHistory>,
}

/// The recently played view's data: the list once fetched, and its cursor.
pub struct RecentlyPlayed {
    pub result: Option<RecentlyPlayedPage>,
    pub index: usize,
}

/// A request for the playback service, to be carried out by the caller.
#[derive(Clone, Debug)]
pub enum Command {
    /// Pause when playing, resume when paused.
    TogglePlayback,
    /// Fetch the devices that playback can go to.
    GetDevices,
    /// Play `uris` in order, starting at position `offset`.
    StartPlayback { uris: Vec<String>, offset: usize },
}

/// The route that a fresh application starts on.
pub open spec fn default_route() -> Route {
    Route { id: RouteId::Home, active_block: ActiveBlock::Empty, hovered_block: ActiveBlock::Library }
}

/// The application state: where the interface is, and each view's data.
pub struct App {
    pub navigation_stack: NavigationStack,
    pub recently_played: RecentlyPlayed,
}

impl App {
    /// A fresh state: the default route alone, and no list fetched.
    pub fn new() -> (r: Self)
        ensures
            r.navigation_stack@ == seq![default_route()],
            r.recently_played.result is None,
            r.recently_played.index == 0,
    {
        let root = Route {
            id: RouteId::Home,
            active_block: ActiveBlock::Empty,
            hovered_block: ActiveBlock::Library,
        };
        App {
            navigation_stack: NavigationStack::new(root),
            recently_played: RecentlyPlayed { result: None, index: 0 },
        }
    }

    /// The current route.
    pub fn get_current_route(&self) -> (r: Route)
        ensures
            self.navigation_stack@.len() >= 1,
            r == self.navigation_stack@.last(),
    {
        self.navigation_stack.current()
    }

    /// Sets the panels of the current route that are given; the others stay.
    pub fn set_current_route_state(
        &mut self,
        active: Option<ActiveBlock>,
        hovered: Option<ActiveBlock>,
    )
        ensures
            final(self).navigation_stack@ == set_top(old(self).navigation_stack@, active, hovered),
            final(self).recently_played == old(self).recently_played,
    {
        self.navigation_stack.set_current_route_state(active, hovered);
    }

    /// Enters the view `id`, with `active_block` both active and hovered.
    pub fn push_navigation_stack(&mut self, id: RouteId, active_block: ActiveBlock)
        ensures
            final(self).navigation_stack@ == old(self).navigation_stack@.push(
                Route { id, active_block, hovered_block: active_block },
            ),
            final(self).recently_played == old(self).recently_played,
    {
        self.navigation_stack.push(Route { id, active_block, hovered_block: active_block });
    }

    /// Leaves the current view and returns its route; at the root nothing changes.
    pub fn pop_navigation_stack(&mut self) -> (r: Option<Route>)
        ensures
            final(self).navigation_stack@ == after_pop(old(self).navigation_stack@),
            r == (if old(self).navigation_stack@.len() > 1 {
                Some(old(self).navigation_stack@.last())
            } else {
                None
            }),
            final(self).recently_played == old(self).recently_played,
    {
        self.navigation_stack.pop()
    }
}

} // verus!
