//! The routes of the service: which request is answered by what.

use vstd::prelude::*;
use crate::error::FeedError;
use crate::error::FeedErrorView;
use crate::error::not_found;
use crate::response::ContentType;
use crate::response::Response;
use crate::response::ResponseView;
use crate::text::same_text;

verus! {

/// What a request asks for.
#[derive(Clone, Copy, Debug, PartialEq, Eq, Structural)]
pub enum Route {
    /// The home page.
    Home,
    /// The robots file.
    Robots,
    /// The site's icon.
    Favicon,
    /// The items of the feed that the query names.
    Feed,
}

/// The route table: the route that answers a request with method `method`
/// for `path`, if there is one. Only `GET` requests are answered.
pub open spec fn route_of(method: Seq<char>, path: Seq<char>) -> Option<Route> {
    if method != "GET"@ {
        None
    } else if path == "/"@ {
        Some(Route::Home)
    } else if path == "/robots.txt"@ {
        Some(Route::Robots)
    } else if path == "/favicon.ico"@ || path == "/favicon.svg"@ {
        Some(Route::Favicon)
    } else if path == "/rss.tera"@ || path == "/rss.stpl"@ {
        Some(Route::Feed)
    } else {
        None
    }
}

/// The outcome of a route lookup, by its views.
pub open spec fn lookup_view(found: Result<Route, FeedError>) -> Result<Route, FeedErrorView> {
    match found {
        Ok(route) => Ok(route),
        Err(error) => Err(error@),
    }
}

/// The outcome of answering a request, by its views.
pub open spec fn answer_view(
    answer: Result<Response, FeedError>,
) -> Result<ResponseView, FeedErrorView> {
    match answer {
        Ok(response) => Ok(response@),
        Err(error) => Err(error@),
    }
}

impl Route {
    /// The content type of what the route answers with.
    pub open spec fn spec_content_type(self) -> ContentType {
        match self {
            Route::Home => ContentType::Html,
            Route::Robots => ContentType::Plain,
            Route::Favicon => ContentType::Svg,
            Route::Feed => ContentType::Html,
        }
    }

    /// Returns the content type of what the route answers with.
    #[verifier::when_used_as_spec(spec_content_type)]
    pub fn content_type(self) -> (content_type: ContentType)
        ensures
            content_type == self.spec_content_type(),
    {
        match self {
            Route::Home => ContentType::Html,
            Route::Robots => ContentType::Plain,
            Route::Favicon => ContentType::Svg,
            Route::Feed => ContentType::Html,
        }
    }
}

/// Looks up the route that answers a request with method `method` for
/// `path`. A request that no route answers fails as not found, with the
/// path as text.
pub fn find_route(method: &str, path: &str) -> (found: Result<Route, FeedError>)
    ensures
        lookup_view(found) == match route_of(method@, path@) {
            Some(route) => Ok::<Route, FeedErrorView>(route),
            None => Err::<Route, FeedErrorView>(FeedErrorView::NotFound { text: path@ }),
        },
{
    if !same_text(method, "GET") {
        Err(not_found(path))
    } else if same_text(path, "/") {
        Ok(Route::Home)
    } else if same_text(path, "/robots.txt") {
        Ok(Route::Robots)
    } else if same_text(path, "/favicon.ico") || same_text(path, "/favicon.svg") {
        Ok(Route::Favicon)
    } else if same_text(path, "/rss.tera") || same_text(path, "/rss.stpl") {
        Ok(Route::Feed)
    } else {
        Err(not_found(path))
    }
}

/// Answers a request for a fixed resource: with the resource and its content
/// type where the bundle holds it, as not found, with the requested path as
/// text, where it does not.
pub fn static_response(
    content_type: ContentType,
    asset: Option<String>,
    path: &str,
) -> (answer: Result<Response, FeedError>)
    ensures
        answer_view(answer) == match asset {
            Some(body) => Ok::<ResponseView, FeedErrorView>(
                ResponseView { status: 200, content_type, body: body@ },
            ),
            None => Err::<ResponseView, FeedErrorView>(FeedErrorView::NotFound { text: path@ }),
        },
{
    match asset {
        Some(body) => Ok(Response { status: 200, content_type, body }),
        None => Err(not_found(path)),
    }
}

} // verus!
