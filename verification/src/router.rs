//! Which operation a request asks for, by its method and path.
//!
//! Three routes exist: `GET /:short` resolves a code, `POST /add` creates a
//! link, `DELETE /:short` deletes a code. Slashes at either end of a path do
//! not count, and `:short` stands for one segment that is not empty. Every
//! other request is not found.

use vstd::prelude::*;

verus! {

/// The request methods that the routes tell apart.
#[derive(Debug, Clone, Copy, PartialEq, Eq, Structural)]
pub enum Method {
    Get,
    Post,
    Delete,
    /// Any other method.
    Other,
}

/// The operation that a request is routed to.
#[derive(Debug, Clone, PartialEq, Eq)]
pub enum Route {
    /// Resolve the short code.
    Resolve(String),
    /// Create a link from the request body.
    Create,
    /// Delete the short code.
    Delete(String),
    /// No route matches.
    NotFound,
}

/// A `Route`, with its code as text.
pub enum RouteView {
    Resolve(Seq<char>),
    Create,
    Delete(Seq<char>),
    NotFound,
}

impl View for Route {
    type V = RouteView;

    open spec fn view(&self) -> RouteView {
        match self {
            Route::Resolve(code) => RouteView::Resolve(code@),
            Route::Create => RouteView::Create,
            Route::Delete(code) => RouteView::Delete(code@),
            Route::NotFound => RouteView::NotFound,
        }
    }
}

/// `path` without the slashes that it starts with.
pub open spec fn strip_leading(path: Seq<char>) -> Seq<char>
    decreases path.len(),
{
    if path.len() > 0 && path.first() == '/' {
        strip_leading(path.drop_first())
    } else {
        path
    }
}

/// `path` without the slashes that it ends with.
pub open spec fn strip_trailing(path: Seq<char>) -> Seq<char>
    decreases path.len(),
{
    if path.len() > 0 && path.last() == '/' {
        strip_trailing(path.drop_last())
    } else {
        path
    }
}

/// `path` without the slashes at either end.
pub open spec fn trimmed(path: Seq<char>) -> Seq<char> {
    strip_trailing(strip_leading(path))
}

/// One path segment: not empty, and without a slash.
pub open spec fn is_segment(s: Seq<char>) -> bool {
    s.len() > 0 && forall|i: int| 0 <= i < s.len() ==> s[i] != '/'
}

/// The segment that names the create route.
pub open spec fn add_segment() -> Seq<char> {
    seq!['a', 'd', 'd']
}

/// The route of a request with this method and path.
pub open spec fn route_of(method: Method, path: Seq<char>) -> RouteView {
    let segment = trimmed(path);
    match method {
        Method::Get => if is_segment(segment) {
            RouteView::Resolve(segment)
        } else {
            RouteView::NotFound
        },
        Method::Delete => if is_segment(segment) {
            RouteView::Delete(segment)
        } else {
            RouteView::NotFound
        },
        Method::Post => if segment == add_segment() {
            RouteView::Create
        } else {
            RouteView::NotFound
        },
        Method::Other => RouteView::NotFound,
    }
}

/// The characters of a string slice.
pub fn chars_of(s: &str) -> (chars: Vec<char>)
    ensures
        chars@ == s@,
{
    let mut chars: Vec<char> = Vec::new();
    for c in it: s.chars()
        invariant
            chars@ == it.seq().take(it.index() as int),
            it.seq() == s@,
    {
        chars.push(c);
    }
    chars
}

/// The characters from `from` up to `to`, as a string.
pub fn text_between(chars: &Vec<char>, from: usize, to: usize) -> (text: String)
    requires
        from <= to <= chars.len(),
    ensures
        text@ == chars@.subrange(from as int, to as int),
{
    let mut text = String::new();
    let mut i: usize = from;
    while i < to
        invariant
            from <= i <= to <= chars.len(),
            text@ == chars@.subrange(from as int, i as int),
        decreases to - i,
    {
        text.push(chars[i]);
        i = i + 1;
    }
    text
}

/// Where `path` begins and ends once the slashes at either end are left
/// out.
pub fn trim_bounds(path: &Vec<char>) -> (bounds: (usize, usize))
    ensures
        bounds.0 <= bounds.1 <= path.len(),
        trimmed(path@) == path@.subrange(bounds.0 as int, bounds.1 as int),
{
    let n = path.len();
    let mut start: usize = 0;
    assert(path@.skip(0) =~= path@);
    while start < n && path[start] == '/'
        invariant
            start <= n == path.len(),
            strip_leading(path@) == strip_leading(path@.skip(start as int)),
        decreases n - start,
    {
        assert(path@.skip(start as int).drop_first() =~= path@.skip(start + 1));
        start = start + 1;
    }
    let mut end: usize = n;
    while end > start && path[end - 1] == '/'
        invariant
            start <= end <= n == path.len(),
            trimmed(path@) == strip_trailing(path@.subrange(start as int, end as int)),
        decreases end - start,
    {
        assert(path@.subrange(start as int, end as int).drop_last() =~= path@.subrange(
            start as int,
            end - 1,
        ));
        end = end - 1;
    }
    (start, end)
}

/// Whether the characters from `from` up to `to` are one path segment.
pub fn segment_between(chars: &Vec<char>, from: usize, to: usize) -> (yes: bool)
    requires
        from <= to <= chars.len(),
    ensures
        yes == is_segment(chars@.subrange(from as int, to as int)),
{
    if from == to {
        return false;
    }
    let ghost segment = chars@.subrange(from as int, to as int);
    let mut i: usize = from;
    while i < to
        invariant
            from <= i <= to <= chars.len(),
            segment == chars@.subrange(from as int, to as int),
            forall|j: int| 0 <= j < i - from ==> segment[j] != '/',
        decreases to - i,
    {
        if chars[i] == '/' {
            assert(segment[i - from] == '/');
            return false;
        }
        i = i + 1;
    }
    true
}

/// Routes a request by its method and path.
pub fn route(method: Method, path: &str) -> (found: Route)
    ensures
        found@ == route_of(method, path@),
{
    let chars = chars_of(path);
    let (start, end) = trim_bounds(&chars);
    let ghost segment = chars@.subrange(start as int, end as int);
    match method {
        Method::Get => {
            if segment_between(&chars, start, end) {
                Route::Resolve(text_between(&chars, start, end))
            } else {
                Route::NotFound
            }
        },
        Method::Delete => {
            if segment_between(&chars, start, end) {
                Route::Delete(text_between(&chars, start, end))
            } else {
                Route::NotFound
            }
        },
        Method::Post => {
            if end - start == 3 && chars[start] == 'a' && chars[start + 1] == 'd' && chars[start
                + 2] == 'd' {
                assert(segment =~= add_segment());
                Route::Create
            } else {
                assert(segment != add_segment()) by {
                    if segment == add_segment() {
                        assert(segment.len() == 3);
                    }
                }
                Route::NotFound
            }
        },
        Method::Other => Route::NotFound,
    }
}

} // verus!
