//! The same table in a relational database: `links(name, short, full_url)`,
//! and the three statements that the handlers need of it. Each `?` takes one
//! text parameter.

use crate::link::{Link, LinkView};
use vstd::prelude::*;

verus! {

/// Looks a code up; its parameter is the code. The first row of the
/// answer is the record found.
pub const FIND_SQL: &'static str = "SELECT full_url FROM links WHERE short = ?";

/// Inserts a record; its parameters are those of `insert_params`.
pub const INSERT_SQL: &'static str = "INSERT INTO links (name, short, full_url) VALUES (?, ?, ?)";

/// Deletes every record with a code; its parameter is the code.
pub const DELETE_SQL: &'static str = "DELETE FROM links WHERE short = ?";

/// The parameters of the insert statement for a record: label, code, URL.
pub open spec fn insert_params_of(link: LinkView) -> Seq<Seq<char>> {
    seq![link.name, link.short_url, link.url]
}

/// The parameters of `INSERT_SQL` for `link`, in the order of its columns.
pub fn insert_params(link: Link) -> (params: Vec<String>)
    ensures
        params@.map_values(|p: String| p@) == insert_params_of(link@),
{
    let mut params: Vec<String> = Vec::new();
    params.push(link.name);
    params.push(link.short_url);
    params.push(link.url);
    params
}

} // verus!
