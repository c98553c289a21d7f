//! The core of a small feed viewer. It turns the text of an RSS feed into a
//! flat, ordered list of items (title, link, publication date), maps every
//! failure to a status code and an error page, and decides at each point of
//! a request what the service does next.
//!
//! Fetching the feed, rendering the item list through a template and serving
//! the result are left to the program around this library.

pub mod date;
pub mod error;
pub mod feed;
pub mod flow;
pub mod item;
pub mod request;
pub mod response;
pub mod route;
pub mod service;
pub mod text;
