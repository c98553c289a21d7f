//! Reading the text of a feed into its entries, in the order of the feed.

use vstd::prelude::*;
use crate::item::raw_views;
use crate::item::RawItem;
use crate::item::RawItemView;

verus! {

/// A feed channel as the `rss` crate holds it.
#[verifier::external_type_specification]
#[verifier::external_body]
pub struct ExChannel(rss::Channel);

/// The entries that a channel holds, in the order in which it holds them.
pub uninterp spec fn channel_items(channel: rss::Channel) -> Seq<RawItemView>;

/// What comes of reading `text` as a feed: its entries in the order of the
/// feed, or the reader's complaint about a text that is no feed.
pub uninterp spec fn feed_reading(text: Seq<char>) -> Result<Seq<RawItemView>, Seq<char>>;

/// The outcome of reading a feed, by its views.
pub open spec fn reading_view(
    read: Result<Vec<RawItem>, String>,
) -> Result<Seq<RawItemView>, Seq<char>> {
    match read {
        Ok(items) => Ok(raw_views(items@)),
        Err(why) => Err(why@),
    }
}

/// Trusted: calls `rss::Channel::read_from` on the bytes of `text` and, where
/// it fails, the `to_string` of the `rss::Error` that it gave.
///
/// The contract claims only that the outcome, channel or complaint, depends
/// on nothing but `text`. It speaks of calls that return: the reader follows
/// nested extension elements by recursion, as deep as the text nests them.
#[verifier::external_body]
fn make_rss_channel(text: &str) -> (read: Result<rss::Channel, String>)
    ensures
        match read {
            Ok(channel) => feed_reading(text@) == Ok::<Seq<RawItemView>, Seq<char>>(
                channel_items(channel),
            ),
            Err(why) => feed_reading(text@) == Err::<Seq<RawItemView>, Seq<char>>(why@),
        },
{
    match rss::Channel::read_from(text.as_bytes()) {
        Ok(channel) => Ok(channel),
        Err(error) => Err(error.to_string()),
    }
}

/// Trusted: the length of the slice that `rss::Channel::items` returns, which
/// is the number of entries that the channel holds.
#[verifier::external_body]
fn item_count(channel: &rss::Channel) -> (count: usize)
    ensures
        count == channel_items(*channel).len(),
{
    channel.items().len()
}

/// Trusted: the entry at `index` of the slice that `rss::Channel::items`
/// returns, copied field by field: `rss::Item::title`, `link` and `pub_date`,
/// and `rss::Item::dublin_core_ext` with the `dates` of the extension.
#[verifier::external_body]
fn raw_item(channel: &rss::Channel, index: usize) -> (item: RawItem)
    requires
        index < channel_items(*channel).len(),
    ensures
        item@ == channel_items(*channel)[index as int],
{
    let item = &channel.items()[index];
    RawItem {
        title: item.title().map(String::from),
        link: item.link().map(String::from),
        pub_date: item.pub_date().map(String::from),
        dc_dates: item.dublin_core_ext().map(|ext| ext.dates().to_vec()),
    }
}

/// Reads `text` as a feed and returns its entries in the order of the feed,
/// or the reader's complaint.
pub fn read_items(text: &str) -> (read: Result<Vec<RawItem>, String>)
    ensures
        reading_view(read) == feed_reading(text@),
{
    let channel = match make_rss_channel(text) {
        Ok(channel) => channel,
        Err(why) => {
            return Err(why);
        },
    };
    let count = item_count(&channel);
    let mut items: Vec<RawItem> = Vec::new();
    while items.len() < count
        invariant
            count == channel_items(channel).len(),
            items.len() <= count,
            forall|i: int| 0 <= i < items.len() ==> items[i]@ == channel_items(channel)[i],
        decreases count - items.len(),
    {
        let next = raw_item(&channel, items.len());
        items.push(next);
    }
    assert(raw_views(items@) =~= channel_items(channel));
    Ok(items)
}

} // verus!
