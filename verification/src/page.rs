//! Draining one paginated remote listing.
//!
//! A listing is fetched page by page through an opaque continuation token:
//! each response carries a batch of items and, unless the listing is
//! exhausted, the token for the next request. The fetch itself is I/O and
//! lives with the caller; the `Paginator` here holds every decision of the
//! drain: which token to send next, when the listing is complete, and the
//! accumulation of all items in fetch order.

use vstd::prelude::*;

verus! {

/// One fetched page: a finite batch of items plus an optional continuation
/// token. An absent or empty token means this was the last page.
pub struct PageResult<T> {
    pub items: Vec<T>,
    pub next_token: Option<String>,
}

impl<T> PageResult<T> {
    /// A page is terminal when its continuation token is absent or empty,
    /// whatever its item count.
    pub open spec fn spec_terminal(self) -> bool {
        match self.next_token {
            Option::None => true,
            Option::Some(t) => t@.len() == 0,
        }
    }

    pub fn is_terminal(&self) -> (b: bool)
        ensures
            b == self.spec_terminal(),
    {
        match &self.next_token {
            Option::None => true,
            Option::Some(t) => t.as_str().is_empty(),
        }
    }
}

/// Whether a page counts as terminal depends on its token alone, never on
/// how many items it carries.
pub proof fn lemma_terminal_ignores_items<T>(a: PageResult<T>, b: PageResult<T>)
    requires
        a.next_token == b.next_token,
    ensures
        a.spec_terminal() == b.spec_terminal(),
{
}

/// Drives one remote listing to completion: pages are absorbed one at a
/// time, the continuation token advancing with each, until a terminal page
/// arrives. The accumulated items are always the concatenation of the
/// absorbed pages' items, in fetch order, with nothing lost or duplicated.
pub struct Paginator<T> {
    items: Vec<T>,
    token: Option<String>,
    done: bool,
    history: Ghost<Seq<Seq<T>>>,
}

/// The sum of the lengths of a sequence of pages' item batches.
pub open spec fn page_len_sum<T>(pages: Seq<Seq<T>>) -> nat
    decreases pages.len(),
{
    if pages.len() == 0 {
        0
    } else {
        pages.first().len() + page_len_sum(pages.drop_first())
    }
}

impl<T> Paginator<T> {
    /// The item batches of every absorbed page, in fetch order.
    pub closed spec fn pages(self) -> Seq<Seq<T>> {
        self.history@
    }

    /// The items accumulated so far.
    pub closed spec fn spec_items(self) -> Seq<T> {
        self.items@
    }

    /// Whether a terminal page has been absorbed.
    pub closed spec fn spec_done(self) -> bool {
        self.done
    }

    /// The continuation token to send with the next fetch; absent on the
    /// first fetch.
    pub closed spec fn spec_token(self) -> Option<String> {
        self.token
    }

    /// The accumulated items are exactly the concatenation of the absorbed
    /// pages' items.
    pub open spec fn wf(self) -> bool {
        self.spec_items() == self.pages().flatten()
    }

    /// A fresh drain: nothing absorbed, no token, not done.
    pub fn new() -> (p: Self)
        ensures
            p.wf(),
            p.pages() == Seq::<Seq<T>>::empty(),
            p.spec_items() == Seq::<T>::empty(),
            !p.spec_done(),
            p.spec_token() is None,
    {
        let p = Paginator {
            items: Vec::new(),
            token: None,
            done: false,
            history: Ghost(Seq::empty()),
        };
        proof {
            assert(Seq::<Seq<T>>::empty().flatten() =~= Seq::<T>::empty());
        }
        p
    }

    pub fn is_done(&self) -> (b: bool)
        ensures
            b == self.spec_done(),
    {
        self.done
    }

    /// The token to put in the next page request.
    pub fn token(&self) -> (t: &Option<String>)
        ensures
            t == self.spec_token(),
    {
        &self.token
    }

    /// Absorbs one fetched page: appends its items after everything
    /// accumulated so far, advances the token, and marks the drain done
    /// exactly when the page is terminal.
    pub fn absorb(&mut self, page: PageResult<T>)
        requires
            !old(self).spec_done(),
            old(self).wf(),
        ensures
            final(self).wf(),
            final(self).pages() == old(self).pages().push(page.items@),
            final(self).spec_items() == old(self).spec_items() + page.items@,
            final(self).spec_done() == page.spec_terminal(),
            final(self).spec_token() == page.next_token,
    {
        let terminal = page.is_terminal();
        let ghost page_items = page.items@;
        let ghost hist = self.history@;
        let PageResult { mut items, next_token } = page;
        self.items.append(&mut items);
        self.token = next_token;
        self.done = terminal;
        self.history = Ghost(hist.push(page_items));
        proof {
            hist.lemma_flatten_push(page_items);
        }
    }

    /// Hands out the accumulated items once the listing is drained.
    pub fn into_items(self) -> (v: Vec<T>)
        requires
            self.spec_done(),
        ensures
            v@ == self.spec_items(),
    {
        self.items
    }
}

/// The paginator's concatenated output equals the flattened concatenation of
/// all absorbed pages in fetch order, and its length the sum of the page
/// lengths.
pub proof fn lemma_paginator_output<T>(p: Paginator<T>)
    requires
        p.wf(),
    ensures
        p.spec_items() == p.pages().flatten(),
        p.spec_items().len() == page_len_sum(p.pages()),
{
    lemma_flatten_len(p.pages());
}

proof fn lemma_flatten_len<T>(pages: Seq<Seq<T>>)
    ensures
        pages.flatten().len() == page_len_sum(pages),
    decreases pages.len(),
{
    if pages.len() > 0 {
        lemma_flatten_len(pages.drop_first());
    }
}

} // verus!
