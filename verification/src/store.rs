//! The link table: records in the order in which they were inserted, found
//! and removed by short code. Codes are not kept unique: an insert never
//! looks at what is there, a lookup gives the record that was inserted
//! first, and a removal takes every record with the code.

use crate::link::{Link, LinkView};
use vstd::prelude::*;

verus! {

/// The records of `rows` that carry `code`, in their order.
pub open spec fn with_code(rows: Seq<LinkView>, code: Seq<char>) -> Seq<LinkView> {
    rows.filter(|l: LinkView| l.short_url == code)
}

/// The records of `rows` that do not carry `code`, in their order.
pub open spec fn without_code(rows: Seq<LinkView>, code: Seq<char>) -> Seq<LinkView> {
    rows.filter(|l: LinkView| l.short_url != code)
}

/// The record that a lookup of `code` gives: the first that carries it.
pub open spec fn first_with_code(rows: Seq<LinkView>, code: Seq<char>) -> Option<LinkView> {
    let hits = with_code(rows, code);
    if hits.len() > 0 {
        Some(hits[0])
    } else {
        None
    }
}

/// No record of `rows` carries `code`.
pub open spec fn code_unused(rows: Seq<LinkView>, code: Seq<char>) -> bool {
    forall|i: int| 0 <= i < rows.len() ==> (#[trigger] rows[i]).short_url != code
}

/// What inserting a record does to the records that carry a code.
pub proof fn lemma_with_code_push(rows: Seq<LinkView>, link: LinkView, code: Seq<char>)
    ensures
        with_code(rows.push(link), code) == if link.short_url == code {
            with_code(rows, code).push(link)
        } else {
            with_code(rows, code)
        },
{
    rows.lemma_filter_push(link, |l: LinkView| l.short_url == code);
}

/// What inserting a record does to the records that do not carry a code.
pub proof fn lemma_without_code_push(rows: Seq<LinkView>, link: LinkView, code: Seq<char>)
    ensures
        without_code(rows.push(link), code) == if link.short_url != code {
            without_code(rows, code).push(link)
        } else {
            without_code(rows, code)
        },
{
    rows.lemma_filter_push(link, |l: LinkView| l.short_url != code);
}

/// A code is unused exactly when no record is selected by it.
pub proof fn lemma_unused_iff_no_hit(rows: Seq<LinkView>, code: Seq<char>)
    ensures
        code_unused(rows, code) <==> with_code(rows, code).len() == 0,
        code_unused(rows, code) <==> first_with_code(rows, code) is None,
    decreases rows.len(),
{
    if rows.len() == 0 {
        reveal(Seq::filter);
    } else {
        let init = rows.drop_last();
        let last = rows.last();
        assert(rows == init.push(last));
        lemma_unused_iff_no_hit(init, code);
        lemma_with_code_push(init, last, code);
        if code_unused(rows, code) {
            assert forall|i: int| 0 <= i < init.len() implies (#[trigger] init[i]).short_url
                != code by {
            }
        }
        if with_code(rows, code).len() == 0 {
            assert forall|i: int| 0 <= i < rows.len() implies (#[trigger] rows[i]).short_url
                != code by {
            }
        }
    }
}

/// The lookup gives the record at `i` if that one carries the code and
/// none before it does.
pub proof fn lemma_first_with_code_at(rows: Seq<LinkView>, code: Seq<char>, i: int)
    requires
        0 <= i < rows.len(),
        rows[i].short_url == code,
        forall|j: int| 0 <= j < i ==> (#[trigger] rows[j]).short_url != code,
    ensures
        first_with_code(rows, code) == Some(rows[i]),
    decreases rows.len(),
{
    let init = rows.drop_last();
    let last = rows.last();
    assert(rows == init.push(last));
    lemma_with_code_push(init, last, code);
    if i == rows.len() - 1 {
        assert forall|j: int| 0 <= j < init.len() implies (#[trigger] init[j]).short_url
            != code by {
        }
        lemma_unused_iff_no_hit(init, code);
    } else {
        assert forall|j: int| 0 <= j < i implies (#[trigger] init[j]).short_url != code by {
        }
        lemma_first_with_code_at(init, code, i);
    }
}

/// The link table.
pub struct LinkStore {
    rows: Vec<Link>,
}

impl View for LinkStore {
    type V = Seq<LinkView>;

    closed spec fn view(&self) -> Seq<LinkView> {
        self.rows@.map_values(|l: Link| l@)
    }
}

impl LinkStore {
    /// An empty table.
    pub fn new() -> (store: LinkStore)
        ensures
            store@ == Seq::<LinkView>::empty(),
    {
        LinkStore { rows: Vec::new() }
    }

    /// The number of records.
    pub fn len(&self) -> (n: usize)
        ensures
            n == self@.len(),
    {
        self.rows.len()
    }

    /// The records, in the order in which they were inserted.
    pub fn records(&self) -> (rows: &Vec<Link>)
        ensures
            rows@.len() == self@.len(),
            forall|i: int| 0 <= i < rows@.len() ==> (#[trigger] rows@[i])@ == self@[i],
    {
        &self.rows
    }

    /// Appends a record. A record that already carries the same code stays.
    pub fn insert(&mut self, link: Link)
        ensures
            final(self)@ == old(self)@.push(link@),
    {
        self.rows.push(link);
    }

    /// The first record, in insertion order, that carries `code`.
    pub fn find_by_code(&self, code: &str) -> (found: Option<&Link>)
        ensures
            match found {
                Some(link) => first_with_code(self@, code@) == Some(link@),
                None => first_with_code(self@, code@) is None,
            },
    {
        let wanted = code.to_owned();
        let mut i: usize = 0;
        while i < self.rows.len()
            invariant
                i <= self.rows.len(),
                wanted@ == code@,
                forall|j: int| 0 <= j < i ==> (#[trigger] self@[j]).short_url != code@,
            decreases self.rows.len() - i,
        {
            if self.rows[i].short_url == wanted {
                proof {
                    lemma_first_with_code_at(self@, code@, i as int);
                }
                return Some(&self.rows[i]);
            }
            i = i + 1;
        }
        proof {
            lemma_unused_iff_no_hit(self@, code@);
        }
        None
    }

    /// Removes every record that carries `code`; the others keep their
    /// order. Where none carries it, nothing changes.
    pub fn delete_by_code(&mut self, code: &str)
        ensures
            final(self)@ == without_code(old(self)@, code@),
    {
        let wanted = code.to_owned();
        let mut kept: Vec<Link> = Vec::new();
        let mut i: usize = 0;
        proof {
            reveal(Seq::filter);
        }
        while i < self.rows.len()
            invariant
                i <= self.rows.len(),
                wanted@ == code@,
                kept@.map_values(|l: Link| l@) == without_code(self@.take(i as int), code@),
            decreases self.rows.len() - i,
        {
            proof {
                assert(self@.take(i + 1) =~= self@.take(i as int).push(self@[i as int]));
                lemma_without_code_push(self@.take(i as int), self@[i as int], code@);
            }
            if self.rows[i].short_url != wanted {
                kept.push(self.rows[i].clone());
            }
            i = i + 1;
        }
        assert(self@.take(i as int) =~= self@);
        self.rows = kept;
    }
}

} // verus!
