use vstd::prelude::*;

verus! {

/// The panels of the interface; one is active and one is hovered in each route.
#[derive(Clone, Copy, Debug, PartialEq, Eq, Structural)]
pub enum ActiveBlock {
    Analysis,
    PlayBar,
    AlbumTracks,
    AlbumList,
    ArtistBlock,
    Empty,
    Error,
    HelpMenu,
    Home,
    Input,
    Library,
    MyPlaylists,
    Podcasts,
    EpisodeTable,
    RecentlyPlayed,
    SearchResultBlock,
    SelectDevice,
    TrackTable,
    MadeForYou,
    Artists,
    BasicView,
}

/// The views that a route can stand for.
#[derive(Clone, Copy, Debug, PartialEq, Eq, Structural)]
pub enum RouteId {
    Analysis,
    AlbumTracks,
    AlbumList,
    Artist,
    BasicView,
    Error,
    Home,
    RecentlyPlayed,
    Search,
    SelectedDevice,
    TrackTable,
    MadeForYou,
    Artists,
    Podcasts,
    PodcastEpisodes,
    Recommendations,
}

/// One entry of the navigation stack.
#[derive(Clone, Copy, Debug, PartialEq, Eq, Structural)]
pub struct Route {
    pub id: RouteId,
    pub active_block: ActiveBlock,
    pub hovered_block: ActiveBlock,
}

/// `route` with each panel that is given replaced, and the others kept.
pub open spec fn with_panels(
    route: Route,
    active: Option<ActiveBlock>,
    hovered: Option<ActiveBlock>,
) -> Route {
    Route {
        id: route.id,
        active_block: match active {
            Some(a) => a,
            None => route.active_block,
        },
        hovered_block: match hovered {
            Some(h) => h,
            None => route.hovered_block,
        },
    }
}

/// The stack `s` with the panels of its top entry set as `with_panels` says.
pub open spec fn set_top(
    s: Seq<Route>,
    active: Option<ActiveBlock>,
    hovered: Option<ActiveBlock>,
) -> Seq<Route> {
    s.update(s.len() - 1, with_panels(s.last(), active, hovered))
}

/// The stack `s` after a pop: the top entry goes, unless it is the root.
pub open spec fn after_pop(s: Seq<Route>) -> Seq<Route> {
    if s.len() <= 1 {
        s
    } else {
        s.drop_last()
    }
}

/// A stack of routes that always holds its root route; its top is the current route.
pub struct NavigationStack {
    root: Route,
    above: Vec<Route>,
}

impl View for NavigationStack {
    type V = Seq<Route>;

    /// The routes from the root (first) to the current one (last).
    closed spec fn view(&self) -> Seq<Route> {
        seq![self.root] + self.above@
    }
}

impl NavigationStack {
    /// A stack that holds `root` alone.
    pub fn new(root: Route) -> (r: Self)
        ensures
            r@ == seq![root],
    {
        let r = NavigationStack { root, above: Vec::new() };
        assert(r@ =~= seq![root]);
        r
    }

    /// The stack is never empty.
    pub proof fn lemma_nonempty(&self)
        ensures
            self@.len() >= 1,
    {
    }

    /// The current route: the top of the stack.
    pub fn current(&self) -> (r: Route)
        ensures
            self@.len() >= 1,
            r == self@.last(),
    {
        let n = self.above.len();
        if n == 0 {
            self.root
        } else {
            self.above[n - 1]
        }
    }

    /// Puts `route` on top of the stack; it becomes the current route.
    pub fn push(&mut self, route: Route)
        ensures
            final(self)@ == old(self)@.push(route),
    {
        self.above.push(route);
        assert(final(self)@ =~= old(self)@.push(route));
    }

    /// Takes the top route off the stack and returns it; at the root nothing changes
    /// and `None` comes back.
    pub fn pop(&mut self) -> (r: Option<Route>)
        ensures
            final(self)@ == after_pop(old(self)@),
            r == (if old(self)@.len() > 1 {
                Some(old(self)@.last())
            } else {
                None
            }),
    {
        let r = self.above.pop();
        assert(final(self)@ =~= after_pop(old(self)@));
        r
    }

    /// Sets the panels of the current route that are given, in place.
    pub fn set_current_route_state(
        &mut self,
        active: Option<ActiveBlock>,
        hovered: Option<ActiveBlock>,
    )
        ensures
            final(self)@ == set_top(old(self)@, active, hovered),
            final(self)@.len() == old(self)@.len(),
            final(self)@.last().id == old(self)@.last().id,
            final(self)@.last().active_block == (match active {
                Some(a) => a,
                None => old(self)@.last().active_block,
            }),
            final(self)@.last().hovered_block == (match hovered {
                Some(h) => h,
                None => old(self)@.last().hovered_block,
            }),
    {
        let n = self.above.len();
        if n == 0 {
            let r = with_panels_exec(self.root, active, hovered);
            self.root = r;
        } else {
            let r = with_panels_exec(self.above[n - 1], active, hovered);
            self.above.set(n - 1, r);
        }
        assert(final(self)@ =~= set_top(old(self)@, active, hovered));
    }
}

fn with_panels_exec(route: Route, active: Option<ActiveBlock>, hovered: Option<ActiveBlock>) -> (r:
    Route)
    ensures
        r == with_panels(route, active, hovered),
{
    Route {
        id: route.id,
        active_block: match active {
            Some(a) => a,
            None => route.active_block,
        },
        hovered_block: match hovered {
            Some(h) => h,
            None => route.hovered_block,
        },
    }
}

/// A push followed by a pop gives back the stack as it was, and the pop returns
/// the route that was pushed.
pub proof fn lemma_push_then_pop(s: Seq<Route>, route: Route)
    requires
        s.len() >= 1,
    ensures
        after_pop(s.push(route)) == s,
        s.push(route).len() > 1,
        s.push(route).last() == route,
{
    assert(s.push(route).drop_last() =~= s);
}

/// Setting only the active panel keeps the hovered one, whatever the stack holds.
pub proof fn lemma_set_active_keeps_hovered(s: Seq<Route>, active: ActiveBlock)
    requires
        s.len() >= 1,
    ensures
        set_top(s, Some(active), None).last().hovered_block == s.last().hovered_block,
        set_top(s, Some(active), None).last().active_block == active,
{
}

} // verus!
