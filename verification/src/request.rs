//! The request line: a method and a path, the first two words of the first
//! line of what a client sent.

use crate::text::{first_line, first_line_of, split_whitespace, words};
use vstd::prelude::*;
use vstd::string::*;

verus! {

/// A request: its method and the path that it asks for.
#[derive(Debug, Clone, PartialEq, Eq)]
pub struct Request {
    pub method: String,
    pub path: String,
}

/// A request as two sequences of characters.
pub struct RequestView {
    pub method: Seq<char>,
    pub path: Seq<char>,
}

impl View for Request {
    type V = RequestView;

    open spec fn view(&self) -> RequestView {
        RequestView { method: self.method@, path: self.path@ }
    }
}

impl DeepView for Request {
    type V = RequestView;

    open spec fn deep_view(&self) -> RequestView {
        self@
    }
}

impl RequestView {
    /// The method is exactly `GET`.
    pub open spec fn is_get(self) -> bool {
        self.method == "GET"@
    }
}

/// The request that a line holds: its first word is the method, its second
/// the path, and further words are ignored. A line of fewer than two words
/// holds none.
pub open spec fn request_of_line(line: Seq<char>) -> Option<RequestView> {
    let parts = words(line);
    if parts.len() >= 2 {
        Some(RequestView { method: parts[0], path: parts[1] })
    } else {
        None
    }
}

/// The request that a text holds: the one of its first line.
pub open spec fn request_of_text(text: Seq<char>) -> Option<RequestView> {
    request_of_line(first_line(text))
}

impl Request {
    /// Tells whether the method is exactly `GET`.
    pub fn is_get(&self) -> (b: bool)
        ensures
            b == self@.is_get(),
    {
        let get = String::from_str("GET");
        self.method == get
    }
}

/// Reads a request from one line.
pub fn parse_request_line(line: &str) -> (request: Option<Request>)
    ensures
        request.deep_view() == request_of_line(line@),
{
    let parts = split_whitespace(line);
    if parts.len() < 2 {
        None
    } else {
        Some(Request { method: parts[0].clone(), path: parts[1].clone() })
    }
}

/// Reads a request from the first line of `text`.
pub fn parse_request(text: &str) -> (request: Option<Request>)
    ensures
        request.deep_view() == request_of_text(text@),
{
    parse_request_line(first_line_of(text))
}

} // verus!
