//! The request for a feed.

use vstd::prelude::*;

verus! {

/// A request to show a feed: the address of the feed, as the query gave it.
/// The address is not examined in any way; one that cannot be fetched shows
/// as a failed fetch.
#[derive(Clone, Debug, PartialEq, Eq)]
pub struct RSSRequest {
    url: String,
}

impl View for RSSRequest {
    type V = Seq<char>;

    closed spec fn view(&self) -> Seq<char> {
        self.url@
    }
}

impl RSSRequest {
    /// Makes the request for the feed at `url`.
    pub fn new(url: String) -> (request: RSSRequest)
        ensures
            request@ == url@,
    {
        RSSRequest { url }
    }

    /// Returns the address of the feed.
    pub fn url(&self) -> (url: &str)
        ensures
            url@ == self@,
    {
        self.url.as_str()
    }
}

} // verus!
