//! Answers to requests.

use vstd::prelude::*;

verus! {

/// What a response body is, as far as its receiver is told.
#[derive(Clone, Copy, Debug, PartialEq, Eq, Structural)]
pub enum ContentType {
    /// An HTML page.
    Html,
    /// Plain text.
    Plain,
    /// An SVG image.
    Svg,
}

/// An answer to a request: status code, content type and body.
#[derive(Clone, Debug, PartialEq, Eq)]
pub struct Response {
    /// The HTTP status code.
    pub status: u16,
    /// What the body is.
    pub content_type: ContentType,
    /// The body.
    pub body: String,
}

/// The mathematical content of a [`Response`].
pub struct ResponseView {
    pub status: u16,
    pub content_type: ContentType,
    pub body: Seq<char>,
}

impl View for Response {
    type V = ResponseView;

    open spec fn view(&self) -> ResponseView {
        ResponseView { status: self.status, content_type: self.content_type, body: self.body@ }
    }
}

impl ContentType {
    /// The media type as it is written in a `Content-Type` header.
    pub fn mime(&self) -> (name: &'static str)
        ensures
            name@ == match self {
                ContentType::Html => "text/html; charset=utf-8"@,
                ContentType::Plain => "text/plain; charset=utf-8"@,
                ContentType::Svg => "image/svg+xml"@,
            },
    {
        match self {
            ContentType::Html => "text/html; charset=utf-8",
            ContentType::Plain => "text/plain; charset=utf-8",
            ContentType::Svg => "image/svg+xml",
        }
    }
}

} // verus!
