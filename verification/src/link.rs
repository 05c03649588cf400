//! The link record, and a link as a create request describes it.

use vstd::prelude::*;

verus! {

/// A stored link: a label, the short code under which it is found, and the
/// URL that the code stands for. None of the three is validated.
#[derive(Debug, PartialEq, Eq)]
pub struct Link {
    pub name: String,
    pub short_url: String,
    pub url: String,
}

/// What a `Link` holds, as text.
pub struct LinkView {
    pub name: Seq<char>,
    pub short_url: Seq<char>,
    pub url: Seq<char>,
}

impl View for Link {
    type V = LinkView;

    open spec fn view(&self) -> LinkView {
        LinkView { name: self.name@, short_url: self.short_url@, url: self.url@ }
    }
}

impl Clone for Link {
    fn clone(&self) -> (copy: Link)
        ensures
            copy@ == self@,
    {
        Link { name: self.name.clone(), short_url: self.short_url.clone(), url: self.url.clone() }
    }
}

/// A link as a create request gives it: the short code may be left out.
#[derive(Debug, Clone, PartialEq, Eq)]
pub struct NewLink {
    pub name: String,
    pub short_url: Option<String>,
    pub url: String,
}

/// What a `NewLink` holds, as text.
pub struct NewLinkView {
    pub name: Seq<char>,
    pub short_url: Option<Seq<char>>,
    pub url: Seq<char>,
}

impl View for NewLink {
    type V = NewLinkView;

    open spec fn view(&self) -> NewLinkView {
        NewLinkView {
            name: self.name@,
            short_url: match self.short_url {
                Some(code) => Some(code@),
                None => None,
            },
            url: self.url@,
        }
    }
}

/// The record that a request becomes: its own short code where it names
/// one, the fallback where it names none.
pub open spec fn completed(request: NewLinkView, fallback: Seq<char>) -> LinkView {
    LinkView {
        name: request.name,
        short_url: match request.short_url {
            Some(code) => code,
            None => fallback,
        },
        url: request.url,
    }
}

impl NewLink {
    /// Makes the record to store, with `fallback` as its short code if the
    /// request names none.
    pub fn complete(self, fallback: String) -> (link: Link)
        ensures
            link@ == completed(self@, fallback@),
    {
        let short_url = match self.short_url {
            Some(code) => code,
            None => fallback,
        };
        Link { name: self.name, short_url, url: self.url }
    }
}

} // verus!
