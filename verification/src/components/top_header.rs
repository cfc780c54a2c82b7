//! The header's symbol search: when to fire a search, what the dropdown
//! shows, and what a pick does. `S` is the symbol record the search returns.

use vstd::prelude::*;
use crate::text::{str_equal, substring, trim, trim_ws};

verus! {

/// Longest company name shown in a result row before it is cut.
pub const MAX_NAME_CHARS: usize = 32;

/// How a symbol search ended.
pub enum SearchReply<S> {
    /// The matching symbols.
    Symbols(Vec<S>),
    /// The search failed with this message.
    Error(String),
    /// The search was dropped without an answer.
    Dropped,
}

/// State of the search box and its dropdown.
pub struct SearchBox<S> {
    pub search_query: String,
    /// Last (trimmed) query a search was fired for.
    pub last_searched_query: String,
    /// A search is in flight.
    pub search_pending: bool,
    /// Latest results.
    pub results: Vec<S>,
    /// Symbol picked this frame, drained by the header.
    pub picked: Option<String>,
    pub dropdown_open: bool,
}

impl<S> SearchBox<S> {
    /// An empty, closed search box.
    pub fn new() -> (b: Self)
        ensures
            b.search_query@.len() == 0,
            b.last_searched_query@.len() == 0,
            !b.search_pending,
            b.results@.len() == 0,
            b.picked is None,
            !b.dropdown_open,
    {
        SearchBox {
            search_query: String::new(),
            last_searched_query: String::new(),
            search_pending: false,
            results: Vec::new(),
            picked: None,
            dropdown_open: false,
        }
    }

    /// After the text field was drawn: when the trimmed query differs from
    /// the last one searched, remember it and either clear the results (empty
    /// query) or return the query to search for, replacing any search in
    /// flight.
    pub fn query_changed(&mut self) -> (fire: Option<String>)
        ensures
            ({
                let q = trim_ws(old(self).search_query@);
                &&& q == old(self).last_searched_query@ ==> fire is None && *final(self) == *old(self)
                &&& q != old(self).last_searched_query@ ==> final(self).last_searched_query@ == q
                &&& q != old(self).last_searched_query@ && q.len() == 0 ==> fire is None && final(self).results@.len() == 0 && !final(self).search_pending
                &&& q != old(self).last_searched_query@ && q.len() > 0 ==> (fire matches Some(f)
                    && f@ == q) && final(self).search_pending && final(self).results@ == old(self).results@
            }),
            *final(self) == (SearchBox {
                last_searched_query: final(self).last_searched_query,
                search_pending: final(self).search_pending,
                results: final(self).results,
                ..*old(self)
            }),
    {
        let query = trim(self.search_query.as_str());
        if str_equal(query.as_str(), self.last_searched_query.as_str()) {
            return None;
        }
        self.last_searched_query = query.clone();
        if query.unicode_len() == 0 {
            self.results = Vec::new();
            self.search_pending = false;
            None
        } else {
            self.search_pending = true;
            Some(query)
        }
    }

    /// The search fired for `query` ended with `reply`. Only the search in
    /// flight for the current query is heard: a reply to one that was cleared
    /// or replaced by a newer query changes nothing. Symbols replace the
    /// results, an error clears them, and a search dropped without an answer
    /// leaves them as they were.
    pub fn search_finished(&mut self, query: &str, reply: SearchReply<S>)
        ensures
            !(old(self).search_pending && query@ == old(self).last_searched_query@) ==> *final(self)
                == *old(self),
            old(self).search_pending && query@ == old(self).last_searched_query@ ==> {
                &&& *final(self) == (SearchBox {
                    search_pending: false,
                    results: final(self).results,
                    ..*old(self)
                })
                &&& match reply {
                    SearchReply::Symbols(v) => final(self).results@ == v@,
                    SearchReply::Error(_) => final(self).results@.len() == 0,
                    SearchReply::Dropped => final(self).results == old(self).results,
                }
            },
    {
        if !self.search_pending || !str_equal(query, self.last_searched_query.as_str()) {
            return;
        }
        self.search_pending = false;
        match reply {
            SearchReply::Symbols(v) => self.results = v,
            SearchReply::Error(_) => self.results = Vec::new(),
            SearchReply::Dropped => {},
        }
    }

    /// The dropdown is drawn when open and the query is not blank.
    pub fn dropdown_visible(&self) -> (r: bool)
        ensures
            r == (self.dropdown_open && trim_ws(self.search_query@).len() > 0),
    {
        self.dropdown_open && trim(self.search_query.as_str()).unicode_len() > 0
    }

    /// Placeholder of an empty dropdown.
    pub fn empty_label(&self) -> (r: &'static str)
        ensures
            self.search_pending ==> r@ == "Searching…"@,
            !self.search_pending ==> r@ == "No matches"@,
    {
        if self.search_pending {
            "Searching…"
        } else {
            "No matches"
        }
    }

    /// A result row was clicked: remember the symbol and reset the box.
    pub fn pick(&mut self, symbol: String)
        ensures
            final(self).picked == Some(symbol),
            final(self).search_query@.len() == 0,
            final(self).last_searched_query@.len() == 0,
            final(self).results@.len() == 0,
            !final(self).search_pending,
            !final(self).dropdown_open,
    {
        self.picked = Some(symbol);
        self.search_query = String::new();
        self.last_searched_query = String::new();
        self.results = Vec::new();
        self.search_pending = false;
        self.dropdown_open = false;
    }

    /// Hand the symbol picked this frame to the chart.
    pub fn take_picked(&mut self) -> (r: Option<String>)
        ensures
            r == old(self).picked,
            *final(self) == (SearchBox { picked: None, ..*old(self) }),
    {
        self.picked.take()
    }
}

/// A company name as shown in a result row: names longer than
/// [`MAX_NAME_CHARS`] characters are cut there and end in an ellipsis.
pub fn display_name(name: &str) -> (r: String)
    ensures
        name@.len() > MAX_NAME_CHARS ==> r@ == name@.subrange(0, MAX_NAME_CHARS as int) + "…"@,
        name@.len() <= MAX_NAME_CHARS ==> r@ == name@,
{
    if name.unicode_len() > MAX_NAME_CHARS {
        let mut r = substring(name, 0, MAX_NAME_CHARS);
        r.append("…");
        r
    } else {
        String::from_str(name)
    }
}

} // verus!
