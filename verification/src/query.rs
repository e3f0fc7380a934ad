//! Request parameters: an ordered list of names and values.

use vstd::prelude::*;
use vstd::string::*;
use crate::text::{decimal_text, render_decimal};

verus! {

/// Parameters as text: each a name and a value.
pub type Params = Seq<(Seq<char>, Seq<char>)>;

/// The text of a list of pairs of strings, in the same order.
pub open spec fn text_pairs(pairs: Seq<(String, String)>) -> Params {
    Seq::new(pairs.len(), |i: int| (pairs[i].0@, pairs[i].1@))
}

/// Copies a list of pairs of strings.
pub fn copy_pairs(pairs: &Vec<(String, String)>) -> (copy: Vec<(String, String)>)
    ensures
        copy@ == pairs@,
{
    let mut copy: Vec<(String, String)> = Vec::new();
    let mut i: usize = 0;
    while i < pairs.len()
        invariant
            i <= pairs.len(),
            copy@ == pairs@.take(i as int),
        decreases pairs.len() - i,
    {
        let name: String = pairs[i].0.clone();
        let value: String = pairs[i].1.clone();
        copy.push((name, value));
        i = i + 1;
    }
    copy
}

/// The parameters of a request for one chunk: the filter, then the limit
/// and the marker where they are given.
pub open spec fn paged_params(filter: Params, limit: Option<usize>, marker: Option<Seq<char>>)
    -> Params {
    let with_limit = match limit {
        Some(n) => filter.push(("limit"@, decimal_text(n as nat))),
        None => filter,
    };
    match marker {
        Some(m) => with_limit.push(("marker"@, m)),
        None => with_limit,
    }
}

/// The text of an optional string.
pub open spec fn text_of(s: Option<String>) -> Option<Seq<char>> {
    match s {
        Some(t) => Some(t@),
        None => None,
    }
}

/// An ordered list of request parameters. A name may occur more than once;
/// the order of insertion is kept.
#[derive(Debug, PartialEq, Eq)]
pub struct Query {
    pub params: Vec<(String, String)>,
}

impl View for Query {
    type V = Params;

    open spec fn view(&self) -> Params {
        text_pairs(self.params@)
    }
}

impl Query {
    /// A query without parameters.
    pub fn new() -> (q: Query)
        ensures
            q@ == Seq::<(Seq<char>, Seq<char>)>::empty(),
    {
        Query { params: Vec::new() }
    }

    /// Appends a parameter with a text value.
    pub fn push_str(&mut self, name: &str, value: String)
        ensures
            final(self)@ == old(self)@.push((name@, value@)),
    {
        let owned: String = String::from_str(name);
        self.params.push((owned, value));
    }

    /// Appends a parameter with a number as its value, in decimal.
    pub fn push_number(&mut self, name: &str, value: u64)
        ensures
            final(self)@ == old(self)@.push((name@, decimal_text(value as nat))),
    {
        self.push_str(name, render_decimal(value));
    }

    /// A copy of this query.
    pub fn duplicate(&self) -> (q: Query)
        ensures
            q@ == self@,
    {
        Query { params: copy_pairs(&self.params) }
    }

    /// This query with a limit and a marker added, each where it is given:
    /// the limit first.
    pub fn with_marker_and_limit(&self, limit: Option<usize>, marker: Option<String>) -> (q: Query)
        ensures
            q@ == paged_params(self@, limit, text_of(marker)),
    {
        let mut q: Query = self.duplicate();
        match limit {
            Some(n) => {
                q.push_number("limit", n as u64);
            },
            None => {},
        }
        match marker {
            Some(m) => {
                q.push_str("marker", m);
            },
            None => {},
        }
        q
    }
}

/// A sort order on a field.
#[derive(Clone, Copy, Debug, PartialEq, Eq)]
pub enum Sort<T> {
    /// Ascending by the field.
    Asc(T),
    /// Descending by the field.
    Desc(T),
}

/// The text of a sort direction: ascending or not.
pub open spec fn direction_text(ascending: bool) -> Seq<char> {
    if ascending {
        "asc"@
    } else {
        "desc"@
    }
}

/// Renders a sort direction.
pub fn render_direction(ascending: bool) -> (s: &'static str)
    ensures
        s@ == direction_text(ascending),
{
    if ascending {
        "asc"
    } else {
        "desc"
    }
}

} // verus!
