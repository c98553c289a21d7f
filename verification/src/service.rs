//! The steps of answering a request for a feed: from what was fetched to the
//! items to show, and from what was rendered to the answer.

use vstd::prelude::*;
use crate::error::FeedError;
use crate::error::FeedErrorView;
use crate::feed::feed_reading;
use crate::feed::read_items;
use crate::feed::reading_view;
use crate::item::Item;
use crate::item::item_views;
use crate::item::ItemView;
use crate::item::normalize_items;
use crate::item::normalized_all;
use crate::item::RawItem;
use crate::item::RawItemView;
use crate::response::ContentType;
use crate::response::Response;
use crate::response::ResponseView;

verus! {

/// An item list or the failure that took its place, by its views.
pub open spec fn items_view(
    items: Result<Vec<Item>, FeedError>,
) -> Result<Seq<ItemView>, FeedErrorView> {
    match items {
        Ok(items) => Ok(item_views(items@)),
        Err(error) => Err(error@),
    }
}

/// A text or the complaint that took its place, by its views.
pub open spec fn outcome_view(fetched: Result<String, String>) -> Result<Seq<char>, Seq<char>> {
    match fetched {
        Ok(text) => Ok(text@),
        Err(why) => Err(why@),
    }
}

/// The items that are shown for the outcome of reading a feed: the entries
/// that were read, each as it is shown, one for one and in order; or a
/// failure to parse, with the reader's complaint as text.
pub open spec fn shown_items(
    read: Result<Seq<RawItemView>, Seq<char>>,
) -> Result<Seq<ItemView>, FeedErrorView> {
    match read {
        Ok(raw) => Ok(normalized_all(raw)),
        Err(why) => Err(FeedErrorView::Parse { text: why }),
    }
}

/// The items that are shown for the outcome of fetching a feed: those of the
/// text that was fetched, or a failure to fetch, with the fetcher's
/// complaint as text.
pub open spec fn fetched_items(
    fetched: Result<Seq<char>, Seq<char>>,
) -> Result<Seq<ItemView>, FeedErrorView> {
    match fetched {
        Ok(text) => shown_items(feed_reading(text)),
        Err(why) => Err(FeedErrorView::Fetch { text: why }),
    }
}

/// The answer for the outcome of rendering an item list: the page with
/// status 200, or the error page of a failure to render, with the
/// renderer's complaint as text.
pub open spec fn rendered_response(
    rendered: Result<Seq<char>, Seq<char>>,
    home: Seq<char>,
) -> ResponseView {
    match rendered {
        Ok(page) => ResponseView { status: 200, content_type: ContentType::Html, body: page },
        Err(why) => (FeedErrorView::Render { text: why }).response(home),
    }
}

/// A text that reads as a feed with some number of entries shows as exactly
/// that many items, the item at each place made from the entry at that place.
pub proof fn valid_feed_shows_every_entry(text: Seq<char>)
    requires
        feed_reading(text) is Ok,
    ensures
        shown_items(feed_reading(text)) is Ok,
        shown_items(feed_reading(text))->Ok_0.len() == feed_reading(text)->Ok_0.len(),
        forall|i: int|
            0 <= i < feed_reading(text)->Ok_0.len() ==> shown_items(feed_reading(text))->Ok_0[i]
                == (#[trigger] feed_reading(text)->Ok_0[i]).normalized(),
{
}

/// A text that does not read as a feed shows no items: it fails to parse,
/// with the reader's complaint as text.
pub proof fn invalid_feed_fails_to_parse(text: Seq<char>)
    requires
        feed_reading(text) is Err,
    ensures
        shown_items(feed_reading(text)) == Err::<Seq<ItemView>, FeedErrorView>(
            FeedErrorView::Parse { text: feed_reading(text)->Err_0 },
        ),
{
}

/// Turns the outcome of reading a feed into the items to show.
pub fn items_from_reading(
    read: Result<Vec<RawItem>, String>,
) -> (items: Result<Vec<Item>, FeedError>)
    ensures
        items_view(items) == shown_items(reading_view(read)),
{
    match read {
        Ok(raw) => Ok(normalize_items(&raw)),
        Err(why) => Err(FeedError::Parse { text: why }),
    }
}

/// Reads `rss_text` as a feed and returns its items as they are shown, as
/// many as the feed holds and in its order; a text that is no feed fails
/// to parse.
pub fn get_items(rss_text: &str) -> (items: Result<Vec<Item>, FeedError>)
    ensures
        items_view(items) == shown_items(feed_reading(rss_text@)),
{
    items_from_reading(read_items(rss_text))
}

/// Turns the outcome of fetching a feed into the items to show.
pub fn items_from_fetch(fetched: Result<String, String>) -> (items: Result<Vec<Item>, FeedError>)
    ensures
        items_view(items) == fetched_items(outcome_view(fetched)),
{
    match fetched {
        Ok(text) => get_items(text.as_str()),
        Err(why) => Err(FeedError::Fetch { text: why }),
    }
}

/// Turns the outcome of rendering an item list into the answer to the
/// request; `home` is the home page, which a failure is shown in.
pub fn page_response(rendered: Result<String, String>, home: &str) -> (response: Response)
    ensures
        response@ == rendered_response(outcome_view(rendered), home@),
{
    match rendered {
        Ok(page) => Response { status: 200, content_type: ContentType::Html, body: page },
        Err(why) => (FeedError::Render { text: why }).error_response(home),
    }
}

} // verus!
