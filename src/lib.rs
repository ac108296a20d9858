//! A typed access layer for the Giphy HTTP API.
//!
//! The library holds the decisions of each call: how a target becomes a URL,
//! which headers and body a request carries, how a response is classified and
//! decoded, and how paginated collections are walked from one page to the next.
//! Sending requests and awaiting responses is left to the caller.
pub mod client;
pub mod error;
pub mod links;
pub mod pagination;
pub mod request;
pub mod response;
pub mod target;
pub mod url_parse;

pub use client::Client;
pub use error::ClientError;
pub use links::{next_link, next_page_target, LinkValue};
pub use pagination::{unfold_pages, PageStep, Unfolder};
pub use request::{decimal_text, header_value_ok, Method, RequestPlan};
pub use response::{decode, decode_with_link, status_is_success, Expect, Payload};
pub use target::{resolve_target, DEFAULT_HOST};
