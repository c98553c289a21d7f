//! The failures of the service, and the page and status code that each is
//! answered with.

use vstd::prelude::*;
use crate::response::ContentType;
use crate::response::Response;
use crate::response::ResponseView;
use crate::text::occurs;
use crate::text::occurs_at;
use crate::text::replace_first;
use crate::text::replaced_first;
use crate::text::replacement_is_shown;

verus! {

/// The comment in the home page that an error message takes the place of.
pub const ERROR_PLACEHOLDER: &'static str = "<!--COMMENT_TO_REPLACE-->";

/// A failure that ends a request. Each kind carries the text that the
/// error page shows.
#[derive(Clone, Debug, PartialEq, Eq)]
pub enum FeedError {
    /// No route matches the requested path, or a fixed resource is missing;
    /// `text` is the path.
    NotFound { text: String },
    /// The feed could not be fetched; `text` is the fetcher's complaint.
    Fetch { text: String },
    /// What was fetched is no feed; `text` is the reader's complaint.
    Parse { text: String },
    /// The item list could not be rendered; `text` is the renderer's
    /// complaint.
    Render { text: String },
}

/// The mathematical content of a [`FeedError`].
pub enum FeedErrorView {
    NotFound { text: Seq<char> },
    Fetch { text: Seq<char> },
    Parse { text: Seq<char> },
    Render { text: Seq<char> },
}

impl View for FeedError {
    type V = FeedErrorView;

    open spec fn view(&self) -> FeedErrorView {
        match self {
            FeedError::NotFound { text } => FeedErrorView::NotFound { text: text@ },
            FeedError::Fetch { text } => FeedErrorView::Fetch { text: text@ },
            FeedError::Parse { text } => FeedErrorView::Parse { text: text@ },
            FeedError::Render { text } => FeedErrorView::Render { text: text@ },
        }
    }
}

impl FeedErrorView {
    /// The text that the failure carries.
    pub open spec fn text(self) -> Seq<char> {
        match self {
            FeedErrorView::NotFound { text } => text,
            FeedErrorView::Fetch { text } => text,
            FeedErrorView::Parse { text } => text,
            FeedErrorView::Render { text } => text,
        }
    }

    /// The words that name the kind of failure in front of its text.
    pub open spec fn label(self) -> Seq<char> {
        match self {
            FeedErrorView::NotFound { .. } => "NotFoundError: "@,
            FeedErrorView::Fetch { .. } => "ReqwestError: "@,
            FeedErrorView::Parse { .. } => "RssError: "@,
            FeedErrorView::Render { .. } => "RenderError: "@,
        }
    }

    /// The failure in words: its label, then its text.
    pub open spec fn message(self) -> Seq<char> {
        self.label() + self.text()
    }

    /// The status code that the failure is answered with: 404 for what was
    /// not found, 500 for a failed rendering, 400 for a feed that could not
    /// be fetched or read.
    pub open spec fn status(self) -> u16 {
        match self {
            FeedErrorView::NotFound { .. } => 404,
            FeedErrorView::Render { .. } => 500,
            FeedErrorView::Fetch { .. } => 400,
            FeedErrorView::Parse { .. } => 400,
        }
    }

    /// The paragraph that is put into the home page.
    pub open spec fn paragraph(self) -> Seq<char> {
        "<p>"@ + self.message() + "</p>"@
    }

    /// The error page: `home` with the failure's paragraph in the place of
    /// the first placeholder. A home page without placeholder is left as it
    /// is.
    pub open spec fn page(self, home: Seq<char>) -> Seq<char> {
        replaced_first(home, ERROR_PLACEHOLDER@, self.paragraph())
    }

    /// The answer to a request that failed in this way.
    pub open spec fn response(self, home: Seq<char>) -> ResponseView {
        ResponseView {
            status: self.status(),
            content_type: ContentType::Html,
            body: self.page(home),
        }
    }
}

/// The error page of a home page that holds the placeholder shows the
/// failure's message, and with it the text that the failure carries.
pub proof fn error_page_shows_text(error: FeedErrorView, home: Seq<char>)
    requires
        occurs(home, ERROR_PLACEHOLDER@),
    ensures
        occurs(error.page(home), error.message()),
        occurs(error.page(home), error.text()),
{
    let paragraph = error.paragraph();
    let lead = "<p>"@.len() as int;
    let message = error.message();
    let text = error.text();
    assert(paragraph.subrange(lead, lead + message.len()) =~= message);
    assert(occurs_at(paragraph, message, lead));
    let skip = lead + error.label().len();
    assert(paragraph.subrange(skip, skip + text.len()) =~= text);
    assert(occurs_at(paragraph, text, skip));
    replacement_is_shown(home, ERROR_PLACEHOLDER@, paragraph, message);
    replacement_is_shown(home, ERROR_PLACEHOLDER@, paragraph, text);
}

impl FeedError {
    /// Returns the text that the failure carries.
    pub fn text(&self) -> (text: &str)
        ensures
            text@ == self@.text(),
    {
        match self {
            FeedError::NotFound { text } => text.as_str(),
            FeedError::Fetch { text } => text.as_str(),
            FeedError::Parse { text } => text.as_str(),
            FeedError::Render { text } => text.as_str(),
        }
    }

    /// Returns the status code that the failure is answered with.
    pub fn status_code(&self) -> (status: u16)
        ensures
            status == self@.status(),
    {
        match self {
            FeedError::NotFound { .. } => 404,
            FeedError::Render { .. } => 500,
            _ => 400,
        }
    }

    /// Returns the failure in words: its label, then its text.
    pub fn message(&self) -> (message: String)
        ensures
            message@ == self@.message(),
    {
        let label = match self {
            FeedError::NotFound { .. } => "NotFoundError: ",
            FeedError::Fetch { .. } => "ReqwestError: ",
            FeedError::Parse { .. } => "RssError: ",
            FeedError::Render { .. } => "RenderError: ",
        };
        let mut message = label.to_owned();
        message.append(self.text());
        message
    }

    /// Returns the answer to a request that failed in this way: the status
    /// code of the failure, and as body the home page `home` with the
    /// failure's message, as a paragraph, in the place of the placeholder.
    ///
    /// The message is put in as it is, without any escaping.
    pub fn error_response(&self, home: &str) -> (response: Response)
        ensures
            response@ == self@.response(home@),
    {
        let mut paragraph = "<p>".to_owned();
        paragraph.append(self.message().as_str());
        paragraph.append("</p>");
        Response {
            status: self.status_code(),
            content_type: ContentType::Html,
            body: replace_first(home, ERROR_PLACEHOLDER, paragraph.as_str()),
        }
    }
}

/// Returns the failure that answers a request for `path`, where no route
/// matches it.
pub fn not_found(path: &str) -> (error: FeedError)
    ensures
        error@ == (FeedErrorView::NotFound { text: path@ }),
{
    FeedError::NotFound { text: path.to_owned() }
}

} // verus!
