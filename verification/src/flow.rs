//! The course of a request: what the service does next, given what has
//! happened so far. The program around the library does what it is told,
//! fetching, rendering and sending, and reports back.

use vstd::prelude::*;
use crate::error::error_page_shows_text;
use crate::error::ERROR_PLACEHOLDER;
use crate::error::FeedErrorView;
use crate::item::Item;
use crate::item::item_views;
use crate::item::ItemView;
use crate::request::RSSRequest;
use crate::response::Response;
use crate::response::ResponseView;
use crate::route::find_route;
use crate::route::Route;
use crate::route::route_of;
use crate::route::static_response;
use crate::service::fetched_items;
use crate::service::items_from_fetch;
use crate::service::outcome_view;
use crate::service::page_response;
use crate::service::rendered_response;
use crate::text::occurs;
use crate::text::opt_string_view;

verus! {

/// The fixed pages of the site.
#[derive(Clone, Debug, PartialEq, Eq)]
pub struct Site {
    /// The home page, which is also the shell of every error page.
    pub home: String,
    /// The robots file, where the site has one.
    pub robots: Option<String>,
    /// The site's icon, where it has one.
    pub favicon: Option<String>,
}

/// The mathematical content of a [`Site`].
pub struct SiteView {
    pub home: Seq<char>,
    pub robots: Option<Seq<char>>,
    pub favicon: Option<Seq<char>>,
}

/// What has happened in the course of a request.
#[derive(Debug, PartialEq, Eq)]
pub enum Event {
    /// A request with this method has arrived for this path.
    Asked { method: String, path: String },
    /// The query of the request has been read: it asks for this feed.
    QueryRead { request: RSSRequest },
    /// The feed has been fetched, or the fetcher has given up with a
    /// complaint.
    Fetched { outcome: Result<String, String> },
    /// The items have been rendered, or the renderer has given up with a
    /// complaint.
    Rendered { outcome: Result<String, String> },
}

/// The mathematical content of an [`Event`].
pub enum EventView {
    Asked { method: Seq<char>, path: Seq<char> },
    QueryRead { url: Seq<char> },
    Fetched { outcome: Result<Seq<char>, Seq<char>> },
    Rendered { outcome: Result<Seq<char>, Seq<char>> },
}

/// What the service does next.
#[derive(Debug, PartialEq, Eq)]
pub enum Action {
    /// Read the address of the feed from the query of the request.
    ReadQuery,
    /// Fetch the feed that the request names.
    Fetch { request: RSSRequest },
    /// Render these items.
    Render { items: Vec<Item> },
    /// Send this answer; the request is done.
    Answer { response: Response },
}

/// The mathematical content of an [`Action`].
pub enum ActionView {
    ReadQuery,
    Fetch { url: Seq<char> },
    Render { items: Seq<ItemView> },
    Answer { response: ResponseView },
}

impl View for Site {
    type V = SiteView;

    open spec fn view(&self) -> SiteView {
        SiteView {
            home: self.home@,
            robots: opt_string_view(self.robots),
            favicon: opt_string_view(self.favicon),
        }
    }
}

impl View for Event {
    type V = EventView;

    open spec fn view(&self) -> EventView {
        match self {
            Event::Asked { method, path } => EventView::Asked { method: method@, path: path@ },
            Event::QueryRead { request } => EventView::QueryRead { url: request@ },
            Event::Fetched { outcome } => EventView::Fetched { outcome: outcome_view(*outcome) },
            Event::Rendered { outcome } => EventView::Rendered { outcome: outcome_view(*outcome) },
        }
    }
}

impl View for Action {
    type V = ActionView;

    open spec fn view(&self) -> ActionView {
        match self {
            Action::ReadQuery => ActionView::ReadQuery,
            Action::Fetch { request } => ActionView::Fetch { url: request@ },
            Action::Render { items } => ActionView::Render { items: item_views(items@) },
            Action::Answer { response } => ActionView::Answer { response: response@ },
        }
    }
}

impl SiteView {
    /// The fixed page that a route answers with, where the site has it. The
    /// feed route has none.
    pub open spec fn asset(self, route: Route) -> Option<Seq<char>> {
        match route {
            Route::Home => Some(self.home),
            Route::Robots => self.robots,
            Route::Favicon => self.favicon,
            Route::Feed => None,
        }
    }

    /// The answer to a request that failed.
    pub open spec fn failure(self, error: FeedErrorView) -> ActionView {
        ActionView::Answer { response: error.response(self.home) }
    }

    /// What the service does next.
    ///
    /// A request that no route matches, or for a fixed page that the site
    /// lacks, is answered as not found; one for a fixed page, with that
    /// page; one for a feed has its query read, then the feed fetched. What
    /// was fetched is read and its items are handed on for rendering; what
    /// was rendered is the answer. A failure on the way is answered with its
    /// error page.
    pub open spec fn next(self, event: EventView) -> ActionView {
        match event {
            EventView::Asked { method, path } => match route_of(method, path) {
                None => self.failure(FeedErrorView::NotFound { text: path }),
                Some(Route::Feed) => ActionView::ReadQuery,
                Some(route) => match self.asset(route) {
                    Some(body) => ActionView::Answer {
                        response: ResponseView {
                            status: 200,
                            content_type: route.content_type(),
                            body,
                        },
                    },
                    None => self.failure(FeedErrorView::NotFound { text: path }),
                },
            },
            EventView::QueryRead { url } => ActionView::Fetch { url },
            EventView::Fetched { outcome } => match fetched_items(outcome) {
                Ok(items) => ActionView::Render { items },
                Err(error) => self.failure(error),
            },
            EventView::Rendered { outcome } => ActionView::Answer {
                response: rendered_response(outcome, self.home),
            },
        }
    }
}

/// A request for a path that no route matches is answered at once, with
/// status 404 and, where the home page holds the placeholder, a page that
/// names the path.
pub proof fn undefined_route_is_answered_not_found(
    site: SiteView,
    method: Seq<char>,
    path: Seq<char>,
)
    requires
        route_of(method, path) is None,
        occurs(site.home, ERROR_PLACEHOLDER@),
    ensures
        site.next(EventView::Asked { method, path }) is Answer,
        site.next(EventView::Asked { method, path })->response.status == 404,
        occurs(site.next(EventView::Asked { method, path })->response.body, path),
{
    error_page_shows_text(FeedErrorView::NotFound { text: path }, site.home);
}

/// A feed that cannot be fetched is answered at once, with status 400 and,
/// where the home page holds the placeholder, a page that shows the
/// fetcher's complaint.
pub proof fn failed_fetch_is_answered_bad_request(site: SiteView, complaint: Seq<char>)
    requires
        occurs(site.home, ERROR_PLACEHOLDER@),
    ensures
        site.next(EventView::Fetched { outcome: Err(complaint) }) is Answer,
        site.next(EventView::Fetched { outcome: Err(complaint) })->response.status == 400,
        occurs(site.next(EventView::Fetched { outcome: Err(complaint) })->response.body, complaint),
{
    error_page_shows_text(FeedErrorView::Fetch { text: complaint }, site.home);
}

/// The course of a request only moves forward: a request is answered or has
/// its query read; a query that was read has the feed fetched; what was
/// fetched is rendered or answered; what was rendered is answered.
pub proof fn course_moves_forward(site: SiteView, event: EventView)
    ensures
        event is Asked ==> site.next(event) is Answer || site.next(event) is ReadQuery,
        event is QueryRead ==> site.next(event) is Fetch,
        event is Fetched ==> site.next(event) is Render || site.next(event) is Answer,
        event is Rendered ==> site.next(event) is Answer,
{
}

/// Every answer to a failure carries the status of the failure: 404, 400 or
/// 500, and never 200.
pub proof fn failure_is_never_answered_ok(site: SiteView, error: FeedErrorView)
    ensures
        site.failure(error)->response.status == error.status(),
        error.status() == 404 || error.status() == 400 || error.status() == 500,
{
}

impl Site {
    /// Returns a copy of the fixed page that `route` answers with, where the
    /// site has it.
    pub fn asset(&self, route: Route) -> (page: Option<String>)
        ensures
            opt_string_view(page) == self@.asset(route),
    {
        match route {
            Route::Home => Some(self.home.clone()),
            Route::Robots => match &self.robots {
                Some(page) => Some(page.clone()),
                None => None,
            },
            Route::Favicon => match &self.favicon {
                Some(page) => Some(page.clone()),
                None => None,
            },
            Route::Feed => None,
        }
    }

    /// Tells what the service does next, given what has happened.
    pub fn next_action(&self, event: Event) -> (action: Action)
        ensures
            action@ == self@.next(event@),
    {
        let home = self.home.as_str();
        match event {
            Event::Asked { method, path } => {
                let route = match find_route(method.as_str(), path.as_str()) {
                    Ok(route) => route,
                    Err(error) => {
                        return Action::Answer { response: error.error_response(home) };
                    },
                };
                match route {
                    Route::Feed => Action::ReadQuery,
                    _ => match static_response(
                        route.content_type(),
                        self.asset(route),
                        path.as_str(),
                    ) {
                        Ok(response) => Action::Answer { response },
                        Err(error) => Action::Answer { response: error.error_response(home) },
                    },
                }
            },
            Event::QueryRead { request } => Action::Fetch { request },
            Event::Fetched { outcome } => match items_from_fetch(outcome) {
                Ok(items) => Action::Render { items },
                Err(error) => Action::Answer { response: error.error_response(home) },
            },
            Event::Rendered { outcome } => Action::Answer {
                response: page_response(outcome, home),
            },
        }
    }
}

} // verus!
