use rss_viewer::error::not_found;
use rss_viewer::response::ContentType;
use rss_viewer::error::FeedError;
use rss_viewer::response::Response;
use rss_viewer::error::ERROR_PLACEHOLDER;
use rss_viewer::request::RSSRequest;
use rss_viewer::route::find_route;
use rss_viewer::route::static_response;
use rss_viewer::route::Route;
use rss_viewer::service::page_response;
use rss_viewer::text::chars_of;
use rss_viewer::text::find_first;
use rss_viewer::text::matches_at;
use rss_viewer::text::replace_first;
use rss_viewer::text::same_text;

const HOME: &str = "<html><body><form></form><!--COMMENT_TO_REPLACE--></body></html>";

fn chars(text: &str) -> Vec<char> {
    text.chars().collect()
}

#[test]
fn request_keeps_the_address_as_given() {
    let request = RSSRequest::new("http://example.com/feed.xml?a=b c".to_string());
    assert_eq!(request.url(), "http://example.com/feed.xml?a=b c");
    assert_eq!(RSSRequest::new(String::new()).url(), "");
}

#[test]
fn status_codes() {
    assert_eq!(FeedError::NotFound { text: "/x".to_string() }.status_code(), 404);
    assert_eq!(FeedError::Fetch { text: "x".to_string() }.status_code(), 400);
    assert_eq!(FeedError::Parse { text: "x".to_string() }.status_code(), 400);
    assert_eq!(FeedError::Render { text: "x".to_string() }.status_code(), 500);
}

#[test]
fn messages() {
    assert_eq!(FeedError::NotFound { text: "/x".to_string() }.message(), "NotFoundError: /x");
    assert_eq!(FeedError::Fetch { text: "down".to_string() }.message(), "ReqwestError: down");
    assert_eq!(FeedError::Parse { text: "bad".to_string() }.message(), "RssError: bad");
    assert_eq!(FeedError::Render { text: "oops".to_string() }.message(), "RenderError: oops");
    assert_eq!(FeedError::Render { text: String::new() }.message(), "RenderError: ");
    assert_eq!(FeedError::Parse { text: "bad".to_string() }.text(), "bad");
}

#[test]
fn undefined_route_is_answered_with_404_and_names_the_path() {
    let error = find_route("GET", "/nonexistent").unwrap_err();
    assert_eq!(error, FeedError::NotFound { text: "/nonexistent".to_string() });
    let response = error.error_response(HOME);
    assert_eq!(response.status, 404);
    assert_eq!(response.content_type, ContentType::Html);
    assert!(response.body.contains("/nonexistent"));
    assert_eq!(
        response.body,
        "<html><body><form></form><p>NotFoundError: /nonexistent</p></body></html>"
    );
}

#[test]
fn failed_fetch_is_answered_with_400_and_shows_the_complaint() {
    let error = FeedError::Fetch { text: "error sending request for url (http://nowhere.invalid/)".to_string() };
    let response = error.error_response(HOME);
    assert_eq!(
        response,
        Response {
            status: 400,
            content_type: ContentType::Html,
            body: "<html><body><form></form><p>ReqwestError: error sending request for url \
(http://nowhere.invalid/)</p></body></html>"
                .to_string(),
        }
    );
}

#[test]
fn failed_parse_is_answered_with_400() {
    let response = FeedError::Parse { text: "no rss".to_string() }.error_response(HOME);
    assert_eq!(response.status, 400);
    assert_eq!(response.body, "<html><body><form></form><p>RssError: no rss</p></body></html>");
}

#[test]
fn failed_rendering_is_answered_with_500() {
    let response = page_response(Err("missing variable".to_string()), HOME);
    assert_eq!(
        response,
        Response {
            status: 500,
            content_type: ContentType::Html,
            body: "<html><body><form></form><p>RenderError: missing variable</p></body></html>"
                .to_string(),
        }
    );
}

#[test]
fn rendered_page_is_answered_with_200() {
    let response = page_response(Ok("<ul></ul>".to_string()), HOME);
    assert_eq!(
        response,
        Response { status: 200, content_type: ContentType::Html, body: "<ul></ul>".to_string() }
    );
}

#[test]
fn home_page_without_placeholder_is_left_as_it_is() {
    let response = not_found("/x").error_response("<html></html>");
    assert_eq!(response.status, 404);
    assert_eq!(response.body, "<html></html>");
}

#[test]
fn only_the_first_placeholder_is_replaced() {
    let home = "a<!--COMMENT_TO_REPLACE-->b<!--COMMENT_TO_REPLACE-->c";
    let response = not_found("/x").error_response(home);
    assert_eq!(response.body, "a<p>NotFoundError: /x</p>b<!--COMMENT_TO_REPLACE-->c");
}

#[test]
fn error_text_is_put_in_as_it_is() {
    let response = not_found("/<b>").error_response(HOME);
    assert_eq!(response.body, "<html><body><form></form><p>NotFoundError: /<b></p></body></html>");
}

#[test]
fn placeholder_is_the_comment() {
    assert_eq!(ERROR_PLACEHOLDER, "<!--COMMENT_TO_REPLACE-->");
}

#[test]
fn routes() {
    assert_eq!(find_route("GET", "/"), Ok(Route::Home));
    assert_eq!(find_route("GET", "/robots.txt"), Ok(Route::Robots));
    assert_eq!(find_route("GET", "/favicon.ico"), Ok(Route::Favicon));
    assert_eq!(find_route("GET", "/favicon.svg"), Ok(Route::Favicon));
    assert_eq!(find_route("GET", "/rss.tera"), Ok(Route::Feed));
    assert_eq!(find_route("GET", "/rss.stpl"), Ok(Route::Feed));
}

#[test]
fn other_paths_and_methods_are_not_found() {
    assert_eq!(find_route("GET", ""), Err(FeedError::NotFound { text: String::new() }));
    assert_eq!(find_route("GET", "/rss"), Err(FeedError::NotFound { text: "/rss".to_string() }));
    assert_eq!(
        find_route("GET", "/robots.txt/"),
        Err(FeedError::NotFound { text: "/robots.txt/".to_string() })
    );
    assert_eq!(find_route("POST", "/"), Err(FeedError::NotFound { text: "/".to_string() }));
    assert_eq!(find_route("get", "/"), Err(FeedError::NotFound { text: "/".to_string() }));
}

#[test]
fn content_types_of_routes() {
    assert_eq!(Route::Home.content_type(), ContentType::Html);
    assert_eq!(Route::Robots.content_type(), ContentType::Plain);
    assert_eq!(Route::Favicon.content_type(), ContentType::Svg);
    assert_eq!(Route::Feed.content_type(), ContentType::Html);
    assert_eq!(ContentType::Html.mime(), "text/html; charset=utf-8");
    assert_eq!(ContentType::Plain.mime(), "text/plain; charset=utf-8");
    assert_eq!(ContentType::Svg.mime(), "image/svg+xml");
}

#[test]
fn fixed_resource_is_served_or_not_found() {
    assert_eq!(
        static_response(ContentType::Plain, Some("User-agent: *\n".to_string()), "/robots.txt"),
        Ok(Response {
            status: 200,
            content_type: ContentType::Plain,
            body: "User-agent: *\n".to_string()
        })
    );
    assert_eq!(
        static_response(ContentType::Svg, None, "/favicon.svg"),
        Err(FeedError::NotFound { text: "/favicon.svg".to_string() })
    );
}

#[test]
fn replace_first_replaces_the_leftmost_occurrence() {
    assert_eq!(replace_first("abcabc", "bc", "X"), "aXabc");
    assert_eq!(replace_first("abcabc", "abc", ""), "abc");
    assert_eq!(replace_first("aaa", "aa", "b"), "ba");
    assert_eq!(replace_first("abc", "c", "cc"), "abcc");
    assert_eq!(replace_first("abc", "abc", "x"), "x");
}

#[test]
fn replace_first_without_occurrence_copies() {
    assert_eq!(replace_first("abc", "d", "X"), "abc");
    assert_eq!(replace_first("ab", "abc", "X"), "ab");
    assert_eq!(replace_first("", "a", "X"), "");
}

#[test]
fn replace_first_with_empty_pattern_puts_in_front() {
    assert_eq!(replace_first("abc", "", "X"), "Xabc");
    assert_eq!(replace_first("", "", "X"), "X");
}

#[test]
fn replace_first_counts_characters_not_bytes() {
    assert_eq!(replace_first("né<!---->é", "<!---->", "ü"), "néüé");
    assert_eq!(replace_first("日本語", "本", "<p>"), "日<p>語");
}

#[test]
fn find_first_finds_the_earliest_position() {
    assert_eq!(find_first(&chars("abcabc"), &chars("bc")), Some(1));
    assert_eq!(find_first(&chars("abcabc"), &chars("abc")), Some(0));
    assert_eq!(find_first(&chars("abcabd"), &chars("abd")), Some(3));
    assert_eq!(find_first(&chars("abc"), &chars("")), Some(0));
    assert_eq!(find_first(&chars(""), &chars("")), Some(0));
    assert_eq!(find_first(&chars("abc"), &chars("abcd")), None);
    assert_eq!(find_first(&chars("abc"), &chars("x")), None);
}

#[test]
fn matches_at_compares_in_place() {
    assert!(matches_at(&chars("abcabc"), &chars("bc"), 1));
    assert!(matches_at(&chars("abcabc"), &chars("bc"), 4));
    assert!(!matches_at(&chars("abcabc"), &chars("bc"), 0));
    assert!(matches_at(&chars("abc"), &chars(""), 3));
    assert!(!matches_at(&chars("abc"), &chars(""), 4));
    assert!(!matches_at(&chars("abc"), &chars("bc"), 2));
    assert!(!matches_at(&chars("abc"), &chars("c"), usize::MAX));
}

#[test]
fn same_text_compares_characters() {
    assert!(same_text("", ""));
    assert!(same_text("GET", "GET"));
    assert!(!same_text("GET", "GE"));
    assert!(!same_text("GET", "GEt"));
    assert!(!same_text("é", "e"));
}

#[test]
fn chars_of_lists_the_characters() {
    assert_eq!(chars_of("a日é"), vec!['a', '日', 'é']);
    assert_eq!(chars_of(""), Vec::<char>::new());
}
