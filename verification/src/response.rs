//! What a handler answers: a status code and a plain-text body.

use vstd::prelude::*;
use vstd::string::StringExecFns;

verus! {

/// A status code and a plain-text body. No answer is a redirect: a resolved
/// URL is the body of a 200.
#[derive(Debug, Clone, PartialEq, Eq)]
pub struct Response {
    pub status: u16,
    pub body: String,
}

/// What a `Response` holds, with its body as text.
pub struct ResponseView {
    pub status: u16,
    pub body: Seq<char>,
}

impl View for Response {
    type V = ResponseView;

    open spec fn view(&self) -> ResponseView {
        ResponseView { status: self.status, body: self.body@ }
    }
}

/// 200, with the resolved URL as the body.
pub open spec fn found(url: Seq<char>) -> ResponseView {
    ResponseView { status: 200, body: url }
}

/// 200 "ok": a link was created, or a code was deleted.
pub open spec fn done() -> ResponseView {
    ResponseView { status: 200, body: "ok"@ }
}

/// 400: the request names no short code.
pub open spec fn no_identifier() -> ResponseView {
    ResponseView { status: 400, body: "no identifier provided"@ }
}

/// 404: no link carries the code, or no route matches.
pub open spec fn not_found() -> ResponseView {
    ResponseView { status: 404, body: "not found"@ }
}

/// 500, with the parser's description of what is wrong with the body.
pub open spec fn parse_failure(description: Seq<char>) -> ResponseView {
    ResponseView { status: 500, body: description }
}

impl Response {
    /// The answer that carries a resolved URL.
    pub fn found(url: String) -> (response: Response)
        ensures
            response@ == found(url@),
    {
        Response { status: 200, body: url }
    }

    /// The answer to a create or a delete that was carried out.
    pub fn done() -> (response: Response)
        ensures
            response@ == done(),
    {
        Response { status: 200, body: String::from_str("ok") }
    }

    /// The answer to a request that names no short code.
    pub fn no_identifier() -> (response: Response)
        ensures
            response@ == no_identifier(),
    {
        Response { status: 400, body: String::from_str("no identifier provided") }
    }

    /// The answer where nothing is found.
    pub fn not_found() -> (response: Response)
        ensures
            response@ == not_found(),
    {
        Response { status: 404, body: String::from_str("not found") }
    }

    /// The answer to a body that could not be read as a link, given the
    /// parser's description of the fault.
    pub fn parse_failure(description: String) -> (response: Response)
        ensures
            response@ == parse_failure(description@),
    {
        Response { status: 500, body: description }
    }
}

} // verus!
