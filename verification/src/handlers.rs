//! The three handlers and the dispatch to them.
//!
//! Each handler is given twice. `get_url_by_short`, `post_url` and
//! `delete_url` work on a `LinkStore`. For a table that lives elsewhere, the
//! same decisions are to be had one by one: `short_param` and `new_record`
//! say what to ask of the table, or answer at once, and `resolve_reply` and
//! `Response::done` turn what the table gave into the answer.

use crate::ident::{is_generated_code, rand_string};
use crate::link::{completed, Link, LinkView, NewLink};
use crate::response::{
    done, found, no_identifier, not_found, parse_failure, Response, ResponseView,
};
use crate::router::{route, route_of, Method, Route, RouteView};
use crate::store::{first_with_code, without_code, LinkStore};
use vstd::prelude::*;

verus! {

/// `serde_json::Error`, the error of reading a body as JSON. Nothing is
/// known of what it holds; it is handed on to `describe`.
#[verifier::external_type_specification]
#[verifier::external_body]
pub struct ExJsonError(serde_json::Error);

/// The text by which a `serde_json::Error` describes itself.
pub uninterp spec fn error_text(error: serde_json::Error) -> Seq<char>;

/// `to_string` on a `serde_json::Error`: the error's `Display` text, which
/// is made from what the error holds and nothing else. That the text is
/// the same for the same error is all that is claimed; what it says, and
/// whether it says anything, is not.
#[verifier::external_body]
fn describe(error: &serde_json::Error) -> (text: String)
    ensures
        text@ == error_text(*error),
{
    error.to_string()
}

/// A request as the handlers see it: method, path, and what reading the
/// body as a link gave.
#[derive(Debug)]
pub struct Request {
    pub method: Method,
    pub path: String,
    pub body: Result<NewLink, serde_json::Error>,
}

/// A path parameter as text.
pub open spec fn param_text(short: Option<&str>) -> Option<Seq<char>> {
    match short {
        Some(code) => Some(code@),
        None => None,
    }
}

/// The code that a request names: its `short` parameter, unless that is
/// missing or empty.
pub open spec fn named_code(short: Option<Seq<char>>) -> Option<Seq<char>> {
    match short {
        Some(code) => if code.len() > 0 {
            Some(code)
        } else {
            None
        },
        None => None,
    }
}

/// The answer to resolving `short` on a table with these records.
pub open spec fn resolve_response(rows: Seq<LinkView>, short: Option<Seq<char>>) -> ResponseView {
    match named_code(short) {
        None => no_identifier(),
        Some(code) => match first_with_code(rows, code) {
            Some(link) => found(link.url),
            None => not_found(),
        },
    }
}

/// The answer to deleting `short`: the same whether or not a record
/// carried the code.
pub open spec fn delete_response(short: Option<Seq<char>>) -> ResponseView {
    match named_code(short) {
        None => no_identifier(),
        Some(_) => done(),
    }
}

/// The records that deleting `short` leaves.
pub open spec fn rows_after_delete(rows: Seq<LinkView>, short: Option<Seq<char>>) -> Seq<
    LinkView,
> {
    match named_code(short) {
        None => rows,
        Some(code) => without_code(rows, code),
    }
}

/// The record that a create request stands for is `link`: the request's
/// own with its code, or with a generated code where it names none.
pub open spec fn records(request: NewLink, link: LinkView) -> bool {
    &&& link == completed(request@, link.short_url)
    &&& request@.short_url is None ==> is_generated_code(link.short_url)
}

/// A create whose body read as `parsed` answers `response` and turns the
/// records `before` into `after`.
pub open spec fn creates(
    parsed: Result<NewLink, serde_json::Error>,
    before: Seq<LinkView>,
    response: ResponseView,
    after: Seq<LinkView>,
) -> bool {
    match parsed {
        Ok(request) => {
            &&& response == done()
            &&& after.len() == before.len() + 1
            &&& after == before.push(after.last())
            &&& records(request, after.last())
        },
        Err(error) => {
            &&& response == parse_failure(error_text(error))
            &&& after == before
        },
    }
}

/// A request answers `response` and turns the records `before` into
/// `after`.
pub open spec fn handles(
    request: Request,
    before: Seq<LinkView>,
    response: ResponseView,
    after: Seq<LinkView>,
) -> bool {
    match route_of(request.method, request.path@) {
        RouteView::Resolve(code) => {
            &&& response == resolve_response(before, Some(code))
            &&& after == before
        },
        RouteView::Create => creates(request.body, before, response, after),
        RouteView::Delete(code) => {
            &&& response == delete_response(Some(code))
            &&& after == rows_after_delete(before, Some(code))
        },
        RouteView::NotFound => {
            &&& response == not_found()
            &&& after == before
        },
    }
}

/// The code to look up or delete, or the answer to a request that names
/// none. The table is not needed to tell.
pub fn short_param<'a>(short: Option<&'a str>) -> (code: Result<&'a str, Response>)
    ensures
        match code {
            Ok(code) => named_code(param_text(short)) == Some(code@),
            Err(response) => named_code(param_text(short)) is None && response@
                == no_identifier(),
        },
{
    match short {
        Some(code) => {
            if code.is_empty() {
                Err(Response::no_identifier())
            } else {
                Ok(code)
            }
        },
        None => Err(Response::no_identifier()),
    }
}

/// The answer to a lookup, given the URL of the record that it found.
pub fn resolve_reply(url: Option<String>) -> (response: Response)
    ensures
        response@ == match url {
            Some(url) => found(url@),
            None => not_found(),
        },
{
    match url {
        Some(url) => Response::found(url),
        None => Response::not_found(),
    }
}

/// The record to insert for a create request, or the answer to a body
/// that did not read as a link. A request without a short code gets a
/// generated one; no code is checked against the table.
pub fn new_record(parsed: Result<NewLink, serde_json::Error>) -> (record: Result<Link, Response>)
    ensures
        match parsed {
            Ok(request) => record is Ok && records(request, record->Ok_0@),
            Err(error) => record is Err && record->Err_0@ == parse_failure(error_text(error)),
        },
{
    match parsed {
        Ok(request) => {
            let fallback = match &request.short_url {
                Some(_) => String::new(),
                None => rand_string(),
            };
            Ok(request.complete(fallback))
        },
        Err(error) => Err(Response::parse_failure(describe(&error))),
    }
}

/// Resolves a short code: 200 with the URL of the first record that
/// carries it, 404 where none does, 400 where no code is given.
pub fn get_url_by_short(short: Option<&str>, store: &LinkStore) -> (response: Response)
    ensures
        response@ == resolve_response(store@, param_text(short)),
{
    match short_param(short) {
        Ok(code) => {
            let url = match store.find_by_code(code) {
                Some(link) => Some(link.url.clone()),
                None => None,
            };
            resolve_reply(url)
        },
        Err(response) => response,
    }
}

/// Creates a link: 200 "ok" once the record is inserted, 500 with the
/// parser's description where the body did not read as a link, and then
/// nothing is inserted.
pub fn post_url(parsed: Result<NewLink, serde_json::Error>, store: &mut LinkStore) -> (response:
    Response)
    ensures
        creates(parsed, old(store)@, response@, final(store)@),
{
    match new_record(parsed) {
        Ok(link) => {
            store.insert(link);
            Response::done()
        },
        Err(response) => response,
    }
}

/// Deletes a short code: 200 "ok" once every record that carries it is
/// gone, also where none did; 400 where no code is given.
pub fn delete_url(short: Option<&str>, store: &mut LinkStore) -> (response: Response)
    ensures
        response@ == delete_response(param_text(short)),
        final(store)@ == rows_after_delete(old(store)@, param_text(short)),
{
    match short_param(short) {
        Ok(code) => {
            store.delete_by_code(code);
            Response::done()
        },
        Err(response) => response,
    }
}

/// Routes a request and lets the handler answer it; 404 where no route
/// matches.
pub fn handle_request(request: Request, store: &mut LinkStore) -> (response: Response)
    ensures
        handles(request, old(store)@, response@, final(store)@),
{
    match route(request.method, request.path.as_str()) {
        Route::Resolve(code) => get_url_by_short(Some(code.as_str()), store),
        Route::Create => post_url(request.body, store),
        Route::Delete(code) => delete_url(Some(code.as_str()), store),
        Route::NotFound => Response::not_found(),
    }
}

} // verus!
