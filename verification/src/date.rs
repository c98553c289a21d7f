//! Publication dates: the two formats that feeds write them in, and the one
//! form, to the minute, in which an item shows its date.

use vstd::prelude::*;
use crate::text::opt_string_view;

verus! {

/// The pattern under which a date is printed: year, month and day, a space,
/// then hour and minute on the 24-hour clock, as in `2003-06-10 04:00`.
pub const MINUTE_PATTERN: &'static str = "%F %R";

/// What comes of reading `text` as an RFC 2822 date-time and printing it
/// under `pattern`; `None` where `text` is no such date-time.
pub uninterp spec fn rfc2822_print(text: Seq<char>, pattern: Seq<char>) -> Option<Seq<char>>;

/// What comes of reading `text` as an RFC 3339 date-time and printing it
/// under `pattern`; `None` where `text` is no such date-time.
pub uninterp spec fn rfc3339_print(text: Seq<char>, pattern: Seq<char>) -> Option<Seq<char>>;

/// The date that an item shows for the date text `source`, given what the
/// two readings of `source` printed.
///
/// An empty source stays empty. Otherwise the RFC 2822 reading is preferred
/// to the RFC 3339 reading, and a source that neither reading accepts is
/// shown as it was written.
pub open spec fn resolved_date(
    source: Seq<char>,
    rfc2822: Option<Seq<char>>,
    rfc3339: Option<Seq<char>>,
) -> Seq<char> {
    if source.len() == 0 {
        source
    } else {
        match rfc2822 {
            Some(printed) => printed,
            None => match rfc3339 {
                Some(printed) => printed,
                None => source,
            },
        }
    }
}

/// The date that an item shows for the date text `source`.
pub open spec fn normalized_date(source: Seq<char>) -> Seq<char> {
    resolved_date(
        source,
        rfc2822_print(source, MINUTE_PATTERN@),
        rfc3339_print(source, MINUTE_PATTERN@),
    )
}

/// A date text that neither reading accepts is shown as it was written.
pub proof fn unreadable_date_is_kept(source: Seq<char>)
    requires
        rfc2822_print(source, MINUTE_PATTERN@) is None,
        rfc3339_print(source, MINUTE_PATTERN@) is None,
    ensures
        normalized_date(source) == source,
{
}

/// Trusted: calls `chrono::DateTime::parse_from_rfc2822` on `text` and, where
/// that succeeds, `DateTime::format` with `pattern` on the date-time it gave.
///
/// The contract claims only that the outcome depends on nothing but the two
/// texts. The pattern is held to the one that this library prints under,
/// which `chrono` can print for every date-time.
#[verifier::external_body]
fn print_rfc2822(text: &str, pattern: &str) -> (printed: Option<String>)
    requires
        pattern@ == MINUTE_PATTERN@,
    ensures
        opt_string_view(printed) == rfc2822_print(text@, pattern@),
{
    match chrono::DateTime::parse_from_rfc2822(text) {
        Ok(at) => Some(at.format(pattern).to_string()),
        Err(_) => None,
    }
}

/// Trusted: calls `chrono::DateTime::parse_from_rfc3339` on `text` and, where
/// that succeeds, `DateTime::format` with `pattern` on the date-time it gave.
///
/// The contract claims only that the outcome depends on nothing but the two
/// texts. The pattern is held to the one that this library prints under,
/// which `chrono` can print for every date-time.
#[verifier::external_body]
fn print_rfc3339(text: &str, pattern: &str) -> (printed: Option<String>)
    requires
        pattern@ == MINUTE_PATTERN@,
    ensures
        opt_string_view(printed) == rfc3339_print(text@, pattern@),
{
    match chrono::DateTime::parse_from_rfc3339(text) {
        Ok(at) => Some(at.format(pattern).to_string()),
        Err(_) => None,
    }
}

/// Picks the date to show for `source` from what its two readings printed.
pub fn resolve_date(
    source: &str,
    rfc2822: Option<String>,
    rfc3339: Option<String>,
) -> (date: String)
    ensures
        date@ == resolved_date(source@, opt_string_view(rfc2822), opt_string_view(rfc3339)),
{
    if source.is_empty() {
        String::new()
    } else {
        match rfc2822 {
            Some(printed) => printed,
            None => match rfc3339 {
                Some(printed) => printed,
                None => source.to_owned(),
            },
        }
    }
}

/// Brings the date text `source` into the form in which an item shows it.
///
/// The second reading is only tried where the first one failed.
pub fn normalize_date(source: &str) -> (date: String)
    ensures
        date@ == normalized_date(source@),
{
    if source.is_empty() {
        return resolve_date(source, None, None);
    }
    let rfc2822 = print_rfc2822(source, MINUTE_PATTERN);
    let rfc3339 = if rfc2822.is_none() {
        print_rfc3339(source, MINUTE_PATTERN)
    } else {
        None
    };
    resolve_date(source, rfc2822, rfc3339)
}

} // verus!
