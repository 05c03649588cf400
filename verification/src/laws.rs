//! What holds of the handlers together, whatever the table holds.

use crate::handlers::{
    creates, delete_response, error_text, handles, resolve_response, rows_after_delete, Request,
};
use crate::ident::all_alphanumeric;
use crate::link::{LinkView, NewLink};
use crate::response::{done, found, no_identifier, not_found, ResponseView};
use crate::router::{route_of, RouteView};
use crate::store::{
    code_unused, first_with_code, lemma_unused_iff_no_hit, lemma_with_code_push,
    lemma_without_code_push, with_code, without_code,
};
use vstd::prelude::*;

verus! {

/// Of several records with one code the first inserted is the one found:
/// an insert changes what a code resolves to only if the code resolved to
/// nothing before.
pub proof fn law_first_inserted_wins(rows: Seq<LinkView>, link: LinkView, code: Seq<char>)
    ensures
        first_with_code(rows.push(link), code) == match first_with_code(rows, code) {
            Some(earlier) => Some(earlier),
            None => if link.short_url == code {
                Some(link)
            } else {
                None
            },
        },
{
    lemma_with_code_push(rows, link, code);
}

/// Deleting a code leaves no record that carries it.
pub proof fn law_delete_removes_code(rows: Seq<LinkView>, code: Seq<char>)
    ensures
        code_unused(without_code(rows, code), code),
        first_with_code(without_code(rows, code), code) is None,
{
    let kept = without_code(rows, code);
    assert forall|i: int| 0 <= i < kept.len() implies (#[trigger] kept[i]).short_url != code by {
        rows.lemma_filter_pred(|l: LinkView| l.short_url != code, i);
    }
    lemma_unused_iff_no_hit(kept, code);
}

/// Deleting a code that no record carries changes nothing.
pub proof fn law_delete_unused_keeps_all(rows: Seq<LinkView>, code: Seq<char>)
    requires
        code_unused(rows, code),
    ensures
        without_code(rows, code) == rows,
    decreases rows.len(),
{
    if rows.len() == 0 {
        reveal(Seq::filter);
    } else {
        let init = rows.drop_last();
        assert(rows == init.push(rows.last()));
        assert forall|i: int| 0 <= i < init.len() implies (#[trigger] init[i]).short_url
            != code by {
        }
        law_delete_unused_keeps_all(init, code);
        lemma_without_code_push(init, rows.last(), code);
    }
}

/// Deleting a code twice is deleting it once.
pub proof fn law_delete_is_idempotent(rows: Seq<LinkView>, code: Seq<char>)
    ensures
        without_code(without_code(rows, code), code) == without_code(rows, code),
{
    law_delete_removes_code(rows, code);
    law_delete_unused_keeps_all(without_code(rows, code), code);
}

/// Deleting one code does not change what another code resolves to.
pub proof fn law_delete_keeps_other_codes(rows: Seq<LinkView>, code: Seq<char>, other: Seq<char>)
    requires
        other != code,
    ensures
        with_code(without_code(rows, code), other) == with_code(rows, other),
        first_with_code(without_code(rows, code), other) == first_with_code(rows, other),
    decreases rows.len(),
{
    if rows.len() == 0 {
        reveal(Seq::filter);
    } else {
        let init = rows.drop_last();
        let last = rows.last();
        assert(rows == init.push(last));
        law_delete_keeps_other_codes(init, code, other);
        lemma_without_code_push(init, last, code);
        lemma_with_code_push(init, last, other);
        lemma_with_code_push(without_code(init, code), last, other);
    }
}

/// A request that names no short code, or an empty one, is answered 400
/// "no identifier provided" by resolve and by delete alike, and the table
/// plays no part: the answer is the same for every table, and a delete
/// leaves the records as they are.
pub proof fn law_missing_code_is_refused(rows: Seq<LinkView>, short: Option<Seq<char>>)
    requires
        short is None || short->0.len() == 0,
    ensures
        resolve_response(rows, short) == no_identifier(),
        delete_response(short) == no_identifier(),
        rows_after_delete(rows, short) == rows,
        no_identifier().status == 400,
{
}

/// Resolving a code that no record carries is answered 404, and the body
/// is the fixed text, not a URL. The code must not be empty: an empty one
/// is answered 400.
pub proof fn law_unused_code_is_not_found(rows: Seq<LinkView>, code: Seq<char>)
    requires
        code.len() > 0,
        code_unused(rows, code),
    ensures
        resolve_response(rows, Some(code)) == not_found(),
        not_found().status == 404,
{
    lemma_unused_iff_no_hit(rows, code);
}

/// An empty table carries no code.
pub proof fn law_empty_table_has_no_code(code: Seq<char>)
    ensures
        code_unused(Seq::<LinkView>::empty(), code),
        first_with_code(Seq::<LinkView>::empty(), code) is None,
{
    lemma_unused_iff_no_hit(Seq::<LinkView>::empty(), code);
}

/// A code that was never created is not in the table: a code that is
/// unused stays unused through every request but a create whose record
/// carries that code.
pub proof fn law_unused_code_stays_unused(
    request: Request,
    before: Seq<LinkView>,
    response: ResponseView,
    after: Seq<LinkView>,
    code: Seq<char>,
)
    requires
        handles(request, before, response, after),
        code_unused(before, code),
        !(route_of(request.method, request.path@) is Create && request.body is Ok
            && after.last().short_url == code),
    ensures
        code_unused(after, code),
{
    match route_of(request.method, request.path@) {
        RouteView::Delete(deleted) => {
            let kept = without_code(before, deleted);
            assert forall|i: int| 0 <= i < kept.len() implies (#[trigger] kept[i]).short_url
                != code by {
                before.lemma_filter_contains_rev(|l: LinkView| l.short_url != deleted, kept[i]);
            }
        },
        _ => {},
    }
}

/// Deleting a code that no record carries is answered 200 "ok" and
/// changes nothing.
pub proof fn law_delete_unused_code_is_ok(rows: Seq<LinkView>, code: Seq<char>)
    requires
        code.len() > 0,
        code_unused(rows, code),
    ensures
        delete_response(Some(code)) == done(),
        done().status == 200,
        rows_after_delete(rows, Some(code)) == rows,
{
    law_delete_unused_keeps_all(rows, code);
}

/// After a delete, resolving the same code is answered 404.
pub proof fn law_deleted_code_is_not_found(rows: Seq<LinkView>, code: Seq<char>)
    requires
        code.len() > 0,
    ensures
        resolve_response(rows_after_delete(rows, Some(code)), Some(code)) == not_found(),
{
    law_delete_removes_code(rows, code);
}

/// After a create that names its short code, resolving that code is
/// answered 200 with the URL that was submitted. Two kinds of input are
/// left out, on which this is not so: an empty code, which resolve
/// answers with 400, and a code under which an earlier record with
/// another URL is still stored, which resolves to the earlier record.
pub proof fn law_created_link_resolves(
    request: NewLink,
    before: Seq<LinkView>,
    response: ResponseView,
    after: Seq<LinkView>,
)
    requires
        creates(Ok(request), before, response, after),
        request@.short_url is Some,
        request@.short_url->0.len() > 0,
        match first_with_code(before, request@.short_url->0) {
            Some(earlier) => earlier.url == request@.url,
            None => true,
        },
    ensures
        response == done(),
        resolve_response(after, request@.short_url) == found(request@.url),
        found(request@.url).status == 200,
{
    law_first_inserted_wins(before, after.last(), request@.short_url->0);
}

/// A create that names no short code stores its record under a code of
/// exactly eight characters, each an ASCII letter or digit.
pub proof fn law_generated_code_shape(
    request: NewLink,
    before: Seq<LinkView>,
    response: ResponseView,
    after: Seq<LinkView>,
)
    requires
        creates(Ok(request), before, response, after),
        request@.short_url is None,
    ensures
        after.last().short_url.len() == 8,
        all_alphanumeric(after.last().short_url),
        after.last().name == request@.name,
        after.last().url == request@.url,
{
}

/// A create whose body did not read as a link is answered 500 with the
/// parser's description as the body, and inserts nothing.
pub proof fn law_failed_parse_inserts_nothing(
    error: serde_json::Error,
    before: Seq<LinkView>,
    response: ResponseView,
    after: Seq<LinkView>,
)
    requires
        creates(Err(error), before, response, after),
    ensures
        response.status == 500,
        response.body == error_text(error),
        after == before,
{
}

} // verus!
