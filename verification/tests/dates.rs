use rss_viewer::date::normalize_date;
use rss_viewer::date::resolve_date;
use rss_viewer::date::MINUTE_PATTERN;
use rss_viewer::item::date_source;
use rss_viewer::item::extract_date_string;
use rss_viewer::item::RawItem;

fn raw(pub_date: Option<&str>, dc_dates: Option<Vec<&str>>) -> RawItem {
    RawItem {
        title: None,
        link: None,
        pub_date: pub_date.map(String::from),
        dc_dates: dc_dates.map(|dates| dates.into_iter().map(String::from).collect()),
    }
}

#[test]
fn standard_date_is_printed_to_the_minute() {
    let item = raw(Some("Tue, 10 Jun 2003 04:00:00 GMT"), None);
    assert_eq!(extract_date_string(&item), "2003-06-10 04:00");
}

#[test]
fn dublin_core_date_is_used_without_standard_date() {
    let item = raw(None, Some(vec!["2021-01-05T10:15:00Z"]));
    assert_eq!(extract_date_string(&item), "2021-01-05 10:15");
}

#[test]
fn unreadable_date_is_shown_as_written() {
    let item = raw(Some("not-a-date"), None);
    assert_eq!(extract_date_string(&item), "not-a-date");
    let item = raw(None, Some(vec!["not-a-date"]));
    assert_eq!(extract_date_string(&item), "not-a-date");
}

#[test]
fn standard_date_takes_precedence_over_dublin_core() {
    let item = raw(Some("Tue, 10 Jun 2003 04:00:00 GMT"), Some(vec!["2021-01-05T10:15:00Z"]));
    assert_eq!(date_source(&item), "Tue, 10 Jun 2003 04:00:00 GMT");
    assert_eq!(extract_date_string(&item), "2003-06-10 04:00");
}

#[test]
fn unreadable_standard_date_still_takes_precedence() {
    let item = raw(Some("yesterday"), Some(vec!["2021-01-05T10:15:00Z"]));
    assert_eq!(extract_date_string(&item), "yesterday");
}

#[test]
fn empty_standard_date_gives_way_to_dublin_core() {
    let item = raw(Some(""), Some(vec!["2021-01-05T10:15:00Z", "2022-02-02T02:02:00Z"]));
    assert_eq!(date_source(&item), "2021-01-05T10:15:00Z");
    assert_eq!(extract_date_string(&item), "2021-01-05 10:15");
}

#[test]
fn only_the_first_dublin_core_date_counts() {
    let item = raw(None, Some(vec!["soon", "2021-01-05T10:15:00Z"]));
    assert_eq!(extract_date_string(&item), "soon");
}

#[test]
fn no_date_at_all_is_empty() {
    assert_eq!(extract_date_string(&raw(None, None)), "");
    assert_eq!(extract_date_string(&raw(None, Some(vec![]))), "");
    assert_eq!(extract_date_string(&raw(Some(""), None)), "");
    assert_eq!(extract_date_string(&raw(Some(""), Some(vec![]))), "");
    assert_eq!(extract_date_string(&raw(None, Some(vec![""]))), "");
}

#[test]
fn both_formats_are_tried_on_either_source() {
    let item = raw(Some("2003-06-10T04:00:00Z"), None);
    assert_eq!(extract_date_string(&item), "2003-06-10 04:00");
    let item = raw(None, Some(vec!["Tue, 10 Jun 2003 04:00:00 GMT"]));
    assert_eq!(extract_date_string(&item), "2003-06-10 04:00");
}

#[test]
fn date_is_printed_in_its_own_offset() {
    assert_eq!(normalize_date("Tue, 1 Jul 2003 10:52:37 +0200"), "2003-07-01 10:52");
    assert_eq!(normalize_date("1996-12-19T16:39:57-08:00"), "1996-12-19 16:39");
    assert_eq!(normalize_date("2021-12-31T23:59:59.999+05:30"), "2021-12-31 23:59");
}

#[test]
fn afternoon_hours_are_on_the_24_hour_clock() {
    assert_eq!(normalize_date("Wed, 18 Feb 2015 23:16:09 GMT"), "2015-02-18 23:16");
    assert_eq!(normalize_date("2015-02-18T13:05:00Z"), "2015-02-18 13:05");
}

#[test]
fn single_digits_are_padded() {
    assert_eq!(normalize_date("Mon, 5 Jan 2009 03:04:05 +0000"), "2009-01-05 03:04");
}

#[test]
fn two_digit_year_is_read_as_chrono_reads_it() {
    assert_eq!(normalize_date("10 Jun 03 04:00 GMT"), "2003-06-10 04:00");
}

#[test]
fn date_without_time_zone_is_kept_as_written() {
    assert_eq!(normalize_date("2003-06-10 04:00:00"), "2003-06-10 04:00:00");
    assert_eq!(normalize_date("Tue, 10 Jun 2003"), "Tue, 10 Jun 2003");
}

#[test]
fn wrong_weekday_is_kept_as_written() {
    assert_eq!(normalize_date("Mon, 10 Jun 2003 04:00:00 GMT"), "Mon, 10 Jun 2003 04:00:00 GMT");
}

#[test]
fn empty_source_is_empty() {
    assert_eq!(normalize_date(""), "");
}

#[test]
fn blank_source_is_kept_as_written() {
    assert_eq!(normalize_date(" "), " ");
}

#[test]
fn the_pattern_prints_date_and_minute() {
    assert_eq!(MINUTE_PATTERN, "%F %R");
}

#[test]
fn resolve_prefers_the_first_reading() {
    let first = Some(String::from("2003-06-10 04:00"));
    let second = Some(String::from("1999-01-01 00:00"));
    assert_eq!(resolve_date("x", first.clone(), second.clone()), "2003-06-10 04:00");
    assert_eq!(resolve_date("x", None, second.clone()), "1999-01-01 00:00");
    assert_eq!(resolve_date("x", first.clone(), None), "2003-06-10 04:00");
    assert_eq!(resolve_date("x", None, None), "x");
}

#[test]
fn resolve_keeps_an_empty_source_empty() {
    let first = Some(String::from("2003-06-10 04:00"));
    let second = Some(String::from("1999-01-01 00:00"));
    assert_eq!(resolve_date("", first, second), "");
    assert_eq!(resolve_date("", None, None), "");
}
