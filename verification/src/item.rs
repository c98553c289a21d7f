//! Feed items as they are read and as they are shown.

use vstd::prelude::*;
use crate::date::normalize_date;
use crate::date::normalized_date;
use crate::text::opt_str_view;
use crate::text::opt_string_view;
use crate::text::text_or_empty;

verus! {

/// One entry of a feed as the feed wrote it: every field may be missing.
#[derive(Clone, Debug, PartialEq, Eq)]
pub struct RawItem {
    /// The entry's title.
    pub title: Option<String>,
    /// The address that the entry points to.
    pub link: Option<String>,
    /// The standard publication date, as text.
    pub pub_date: Option<String>,
    /// The dates of the entry's Dublin Core extension, where it has one.
    pub dc_dates: Option<Vec<String>>,
}

/// The mathematical content of a [`RawItem`].
pub struct RawItemView {
    pub title: Option<Seq<char>>,
    pub link: Option<Seq<char>>,
    pub pub_date: Option<Seq<char>>,
    pub dc_dates: Option<Seq<Seq<char>>>,
}

/// One entry of a feed as it is shown: three plain strings, none of them
/// ever missing.
#[derive(Clone, Debug, PartialEq, Eq)]
pub struct Item {
    /// The entry's title, empty where the feed gave none.
    pub title: String,
    /// The entry's address, empty where the feed gave none.
    pub link: String,
    /// The entry's date to the minute, or as the feed wrote it, or empty.
    pub pub_date: String,
}

/// The mathematical content of an [`Item`].
pub struct ItemView {
    pub title: Seq<char>,
    pub link: Seq<char>,
    pub pub_date: Seq<char>,
}

/// The texts of a list of strings, in order.
pub open spec fn texts(list: Seq<String>) -> Seq<Seq<char>> {
    Seq::new(list.len(), |i: int| list[i]@)
}

impl View for RawItem {
    type V = RawItemView;

    open spec fn view(&self) -> RawItemView {
        RawItemView {
            title: opt_string_view(self.title),
            link: opt_string_view(self.link),
            pub_date: opt_string_view(self.pub_date),
            dc_dates: match self.dc_dates {
                Some(dates) => Some(texts(dates@)),
                None => None,
            },
        }
    }
}

impl View for Item {
    type V = ItemView;

    open spec fn view(&self) -> ItemView {
        ItemView { title: self.title@, link: self.link@, pub_date: self.pub_date@ }
    }
}

impl RawItemView {
    /// The text from which the entry's date is taken: the standard
    /// publication date where the entry has one that is not empty; else the
    /// first Dublin Core date where the entry has any; else the empty text.
    pub open spec fn date_source(self) -> Seq<char> {
        if self.pub_date is Some && self.pub_date->0.len() > 0 {
            self.pub_date->0
        } else if self.dc_dates is Some && self.dc_dates->0.len() > 0 {
            self.dc_dates->0[0]
        } else {
            Seq::empty()
        }
    }

    /// The entry as it is shown.
    pub open spec fn normalized(self) -> ItemView {
        ItemView {
            title: text_or_empty(self.title),
            link: text_or_empty(self.link),
            pub_date: normalized_date(self.date_source()),
        }
    }
}

/// The entries of `raw` as they are shown, one for one and in order.
pub open spec fn normalized_all(raw: Seq<RawItemView>) -> Seq<ItemView> {
    Seq::new(raw.len(), |i: int| raw[i].normalized())
}

/// The views of a list of raw entries, in order.
pub open spec fn raw_views(list: Seq<RawItem>) -> Seq<RawItemView> {
    Seq::new(list.len(), |i: int| list[i]@)
}

/// The views of a list of shown entries, in order.
pub open spec fn item_views(list: Seq<Item>) -> Seq<ItemView> {
    Seq::new(list.len(), |i: int| list[i]@)
}

/// The shown list has as many entries as were read, and each shown entry
/// stands in the place of the entry that it was made from.
pub proof fn normalizing_keeps_count_and_order(raw: Seq<RawItemView>)
    ensures
        normalized_all(raw).len() == raw.len(),
        forall|i: int| 0 <= i < raw.len() ==> normalized_all(raw)[i] == raw[i].normalized(),
{
}

/// A title or a link that the feed gave is shown as it was written; one that
/// the feed did not give is shown as the empty string.
pub proof fn title_and_link_are_verbatim(raw: RawItemView)
    ensures
        raw.title matches Some(title) ==> raw.normalized().title == title,
        raw.title is None ==> raw.normalized().title == Seq::<char>::empty(),
        raw.link matches Some(link) ==> raw.normalized().link == link,
        raw.link is None ==> raw.normalized().link == Seq::<char>::empty(),
{
}

/// A standard publication date that is not empty takes precedence: the
/// entry's date is taken from it, whatever Dublin Core dates the entry has.
pub proof fn standard_date_takes_precedence(raw: RawItemView, other_dates: Option<Seq<Seq<char>>>)
    requires
        raw.pub_date is Some,
        raw.pub_date->0.len() > 0,
    ensures
        raw.date_source() == raw.pub_date->0,
        raw.normalized().pub_date == normalized_date(raw.pub_date->0),
        (RawItemView { dc_dates: other_dates, ..raw }).normalized() == raw.normalized(),
{
}

/// Without a standard publication date that is not empty, the entry's date
/// is taken from the first of its Dublin Core dates.
pub proof fn first_dublin_core_date_is_next(raw: RawItemView)
    requires
        raw.pub_date is None || raw.pub_date->0.len() == 0,
        raw.dc_dates is Some,
        raw.dc_dates->0.len() > 0,
    ensures
        raw.date_source() == raw.dc_dates->0[0],
        raw.normalized().pub_date == normalized_date(raw.dc_dates->0[0]),
{
}

/// An entry without any date text shows the empty string as its date.
pub proof fn no_date_is_empty(raw: RawItemView)
    requires
        raw.pub_date is None || raw.pub_date->0.len() == 0,
        raw.dc_dates is None || raw.dc_dates->0.len() == 0,
    ensures
        raw.normalized().pub_date == Seq::<char>::empty(),
{
}

/// Returns an owned copy of `opstr`, or the empty string where it is absent.
pub fn extract_string(opstr: Option<&str>) -> (text: String)
    ensures
        text@ == text_or_empty(opt_str_view(opstr)),
{
    match opstr {
        Some(s) => s.to_owned(),
        None => String::new(),
    }
}

/// Returns the text from which the date of `item` is taken.
pub fn date_source(item: &RawItem) -> (source: &str)
    ensures
        source@ == item@.date_source(),
{
    if let Some(date) = &item.pub_date {
        if !date.as_str().is_empty() {
            return date.as_str();
        }
    }
    if let Some(dates) = &item.dc_dates {
        if dates.len() > 0 {
            return dates[0].as_str();
        }
    }
    proof {
        reveal_strlit("");
    }
    ""
}

/// Returns the date that `item` shows.
pub fn extract_date_string(item: &RawItem) -> (date: String)
    ensures
        date@ == normalized_date(item@.date_source()),
{
    normalize_date(date_source(item))
}

/// Brings one entry into the form in which it is shown.
pub fn normalize_item(raw: &RawItem) -> (item: Item)
    ensures
        item@ == raw@.normalized(),
{
    let title = match &raw.title {
        Some(text) => extract_string(Some(text.as_str())),
        None => extract_string(None),
    };
    let link = match &raw.link {
        Some(text) => extract_string(Some(text.as_str())),
        None => extract_string(None),
    };
    Item { title, link, pub_date: extract_date_string(raw) }
}

/// Brings every entry of `raw` into the form in which it is shown: as many
/// entries as were read, each in the place of the one it was made from.
pub fn normalize_items(raw: &Vec<RawItem>) -> (items: Vec<Item>)
    ensures
        items.len() == raw.len(),
        item_views(items@) == normalized_all(raw_views(raw@)),
{
    let mut items: Vec<Item> = Vec::new();
    let mut done: usize = 0;
    while done < raw.len()
        invariant
            done <= raw.len(),
            items.len() == done,
            forall|i: int| 0 <= i < done ==> items[i]@ == raw[i]@.normalized(),
        decreases raw.len() - done,
    {
        items.push(normalize_item(&raw[done]));
        done = done + 1;
    }
    items
}

} // verus!
