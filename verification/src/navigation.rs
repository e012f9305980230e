//! Which page a route leads to, and the short memory of routes taken.

use vstd::prelude::*;
use std::collections::VecDeque;

verus! {

/// A place that the address of the page can name.
#[derive(Debug, Clone, Copy, PartialEq, Eq, Structural)]
pub enum Route {
    EventRoot,
    Event { event_id: usize },
    BlockEdit { event_id: usize, block_id: usize },
    Login,
    Root,
}

/// A page that can be shown.
#[derive(Debug, Clone, Copy, PartialEq, Eq, Structural)]
pub enum PageId {
    Event,
    EventList,
    BlockEdit { event_id: usize, block_id: usize },
    Home,
    Login,
    Unknown,
}

/// What follows from a change of route.
#[derive(Debug, Clone, Copy, PartialEq, Eq, Structural)]
pub enum Navigation {
    /// The page is shown.
    Show(PageId),
    /// The page of one event is shown, and the event becomes the current one.
    ShowEvent { event_id: usize },
    /// The route is given up for another.
    Replace(Route),
}

/// Where a route leads: the list and the page of an event are for users who
/// are logged in, and lead to the login otherwise; the login leads a logged
/// user to the root; an address that names no route leads to the unknown page.
pub open spec fn leads_to(route: Option<Route>, user_logged: bool) -> Navigation {
    match route {
        None => Navigation::Show(PageId::Unknown),
        Some(Route::EventRoot) => if user_logged {
            Navigation::Show(PageId::EventList)
        } else {
            Navigation::Replace(Route::Login)
        },
        Some(Route::Event { event_id }) => if user_logged {
            Navigation::ShowEvent { event_id }
        } else {
            Navigation::Replace(Route::Login)
        },
        Some(Route::BlockEdit { event_id, block_id }) => Navigation::Show(
            PageId::BlockEdit { event_id, block_id },
        ),
        Some(Route::Login) => if user_logged {
            Navigation::Replace(Route::Root)
        } else {
            Navigation::Show(PageId::Login)
        },
        Some(Route::Root) => Navigation::Show(PageId::Home),
    }
}

/// The history after `route` was taken: the route in front, and behind it
/// the one that was in front before.
pub open spec fn remembered(history: Seq<Route>, route: Route) -> Seq<Route> {
    if history.len() == 2 {
        seq![route] + history.drop_last()
    } else {
        seq![route] + history
    }
}

/// The history after a change of route: a route that the address names is
/// remembered, another address leaves the history as it is.
pub open spec fn history_after(history: Seq<Route>, route: Option<Route>) -> Seq<Route> {
    match route {
        Some(route) => remembered(history, route),
        None => history,
    }
}

/// The last two routes taken, the newest first.
#[derive(Debug)]
pub struct RouteHistory {
    routes: VecDeque<Route>,
}

impl View for RouteHistory {
    type V = Seq<Route>;

    closed spec fn view(&self) -> Seq<Route> {
        self.routes@
    }
}

impl RouteHistory {
    /// The history holds two routes at most.
    pub open spec fn wf(&self) -> bool {
        self@.len() <= 2
    }

    /// A history without routes.
    pub fn new() -> (history: RouteHistory)
        ensures
            history@ == Seq::<Route>::empty(),
            history.wf(),
    {
        RouteHistory { routes: VecDeque::new() }
    }

    /// Puts `route` in front and drops what is older than the route before it.
    pub fn push_to_route_history(&mut self, route: Route)
        requires
            old(self).wf(),
        ensures
            final(self).wf(),
            final(self)@ == remembered(old(self)@, route),
    {
        if self.routes.len() == 2 {
            let _ = self.routes.pop_back();
        }
        self.routes.push_front(route);
        proof {
            assert(self@ =~= remembered(old(self)@, route));
        }
    }

    /// The route that was taken before the current one, if there was one.
    pub fn previous_route(&self) -> (route: Option<Route>)
        ensures
            route == if self@.len() > 1 {
                Some(self@[1])
            } else {
                None
            },
    {
        if self.routes.len() > 1 {
            Some(self.routes[1])
        } else {
            None
        }
    }
}

/// What a client keeps beside its blocks: who is logged in, the page shown,
/// the current event, the block picked out, and the routes taken.
#[derive(Debug)]
pub struct AppState {
    logged_user: Option<String>,
    page_id: PageId,
    event_id: Option<usize>,
    selected_block: Option<usize>,
    route_history: RouteHistory,
}

/// The mathematical value of an [`AppState`].
pub struct AppStateView {
    pub logged_user: Option<Seq<char>>,
    pub page_id: PageId,
    pub event_id: Option<usize>,
    pub selected_block: Option<usize>,
    pub route_history: Seq<Route>,
}

impl AppStateView {
    /// The state of a client that has just started.
    pub open spec fn initial() -> AppStateView {
        AppStateView {
            logged_user: None,
            page_id: PageId::Unknown,
            event_id: None,
            selected_block: None,
            route_history: Seq::empty(),
        }
    }

    /// The state after a change of route: the route is remembered, and what
    /// it leads to is shown; a route that is given up for another shows nothing.
    pub open spec fn routed(self, route: Option<Route>) -> AppStateView {
        let route_history = history_after(self.route_history, route);
        match leads_to(route, self.logged_user.is_some()) {
            Navigation::Show(page_id) => AppStateView { page_id, route_history, ..self },
            Navigation::ShowEvent { event_id } => AppStateView {
                page_id: PageId::Event,
                event_id: Some(event_id),
                route_history,
                ..self
            },
            Navigation::Replace(_) => AppStateView { route_history, ..self },
        }
    }

    /// The route that replaces `route`, where it is given up.
    pub open spec fn replacement(self, route: Option<Route>) -> Option<Route> {
        match leads_to(route, self.logged_user.is_some()) {
            Navigation::Replace(other) => Some(other),
            _ => None,
        }
    }
}

impl View for AppState {
    type V = AppStateView;

    closed spec fn view(&self) -> AppStateView {
        AppStateView {
            logged_user: match self.logged_user {
                Some(name) => Some(name@),
                None => None,
            },
            page_id: self.page_id,
            event_id: self.event_id,
            selected_block: self.selected_block,
            route_history: self.route_history@,
        }
    }
}

impl AppState {
    /// The history holds two routes at most.
    pub open spec fn wf(&self) -> bool {
        self@.route_history.len() <= 2
    }

    /// The state of a client that has just started: nobody logged in, no
    /// page, event or block chosen, no route taken.
    pub fn new() -> (state: AppState)
        ensures
            state@ == AppStateView::initial(),
            state.wf(),
    {
        AppState {
            logged_user: None,
            page_id: PageId::Unknown,
            event_id: None,
            selected_block: None,
            route_history: RouteHistory::new(),
        }
    }

    /// The name of the user who is logged in, if one is.
    pub fn logged_user(&self) -> (user: &Option<String>)
        ensures
            match *user {
                Some(name) => self@.logged_user == Some(name@),
                None => self@.logged_user.is_none(),
            },
    {
        &self.logged_user
    }

    /// Whether a user is logged in.
    pub fn is_user_logged(&self) -> (logged: bool)
        ensures
            logged == self@.logged_user.is_some(),
    {
        self.logged_user.is_some()
    }

    /// The page that is shown.
    pub fn page_id(&self) -> (page_id: PageId)
        ensures
            page_id == self@.page_id,
    {
        self.page_id
    }

    /// The current event, if one was chosen.
    pub fn event_id(&self) -> (event_id: Option<usize>)
        ensures
            event_id == self@.event_id,
    {
        self.event_id
    }

    /// The block that is picked out, if one is.
    pub fn selected_block(&self) -> (id: Option<usize>)
        ensures
            id == self@.selected_block,
    {
        self.selected_block
    }

    /// The route that was taken before the current one, if there was one.
    pub fn previous_route(&self) -> (route: Option<Route>)
        ensures
            route == if self@.route_history.len() > 1 {
                Some(self@.route_history[1])
            } else {
                None
            },
    {
        self.route_history.previous_route()
    }

    /// Shows the page `new_page_id`. The result says whether that is another
    /// page than the one shown before.
    pub fn set_page_id(&mut self, new_page_id: PageId) -> (changed: bool)
        ensures
            final(self)@ == (AppStateView { page_id: new_page_id, ..old(self)@ }),
            changed == (old(self)@.page_id != new_page_id),
    {
        let changed = self.page_id != new_page_id;
        self.page_id = new_page_id;
        changed
    }

    /// Makes `id` the current event.
    pub fn set_event_id(&mut self, id: usize)
        ensures
            final(self)@ == (AppStateView { event_id: Some(id), ..old(self)@ }),
    {
        self.event_id = Some(id);
    }

    /// Picks the block `id` out.
    pub fn select_block(&mut self, id: usize)
        ensures
            final(self)@ == (AppStateView { selected_block: Some(id), ..old(self)@ }),
    {
        self.selected_block = Some(id);
    }

    /// Logs the user `name` in. The result is where the user goes from
    /// there: back to the route taken before the current one, or to the root
    /// where there was none.
    pub fn log_in(&mut self, name: String) -> (route: Route)
        ensures
            final(self)@ == (AppStateView { logged_user: Some(name@), ..old(self)@ }),
            route == if old(self)@.route_history.len() > 1 {
                old(self)@.route_history[1]
            } else {
                Route::Root
            },
    {
        self.logged_user = Some(name);
        match self.route_history.previous_route() {
            Some(route) => route,
            None => Route::Root,
        }
    }

    /// Logs the user out. The result is where the user goes from there: to
    /// the root.
    pub fn log_out(&mut self) -> (route: Route)
        ensures
            final(self)@ == (AppStateView { logged_user: None, ..old(self)@ }),
            route == Route::Root,
    {
        self.logged_user = None;
        Route::Root
    }

    /// Takes a change of route: remembers the route, if the address names
    /// one, and shows what it leads to. Where the route is given up for
    /// another, nothing else changes and the result is the route to take.
    pub fn router(&mut self, route: Option<Route>) -> (replace: Option<Route>)
        requires
            old(self).wf(),
        ensures
            final(self).wf(),
            final(self)@ == old(self)@.routed(route),
            replace == old(self)@.replacement(route),
    {
        let user_logged = self.logged_user.is_some();
        let route = match route {
            Some(route) => {
                self.route_history.push_to_route_history(route);
                route
            },
            None => {
                self.page_id = PageId::Unknown;
                return None;
            },
        };
        match route {
            Route::EventRoot => {
                if !user_logged {
                    return Some(Route::Login);
                }
                self.page_id = PageId::EventList;
            },
            Route::Event { event_id } => {
                if !user_logged {
                    return Some(Route::Login);
                }
                self.page_id = PageId::Event;
                self.event_id = Some(event_id);
            },
            Route::BlockEdit { event_id, block_id } => {
                self.page_id = PageId::BlockEdit { event_id, block_id };
            },
            Route::Login => {
                if user_logged {
                    return Some(Route::Root);
                }
                self.page_id = PageId::Login;
            },
            Route::Root => {
                self.page_id = PageId::Home;
            },
        }
        None
    }
}

} // verus!
