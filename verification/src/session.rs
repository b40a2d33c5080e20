//! The two listing sessions: pagination driven under the retry policy.
//!
//! Each remote listing is drained by one session: the session says which
//! request to send next, absorbs each fetched page, and decides after each
//! failure whether to retry the same page (and how long to wait) or to give
//! up. The caller performs the fetches and the waits; every decision is
//! taken here.

use vstd::prelude::*;

use crate::filters::TagFilter;
use crate::model::FunctionRecord;
use crate::model::TagMapping;
use crate::page::PageResult;
use crate::page::Paginator;
use crate::retry::RetryPolicy;

verus! {

/// The request one function-listing page fetch sends: a page-size hint and
/// the continuation token of the previous page, if any.
pub struct ListFunctionsRequest {
    pub max_items: Option<i64>,
    pub marker: Option<String>,
}

/// The request one tag-listing page fetch sends: the resource-type filter
/// fixed to this service's function resources, a page-size hint, the
/// continuation token of the previous page, and the user's tag filters.
pub struct GetResourcesRequest {
    pub resource_type_filters: Option<Vec<String>>,
    pub resources_per_page: Option<i64>,
    pub pagination_token: Option<String>,
    pub tag_filters: Option<Vec<TagFilter>>,
}

/// Builds the next function-listing request: one hundred records a page,
/// continuing from the given token.
pub fn listing_request(marker: Option<String>) -> (r: ListFunctionsRequest)
    ensures
        r.max_items == Option::Some(100i64),
        r.marker == marker,
{
    ListFunctionsRequest { max_items: Option::Some(100), marker }
}

/// Builds the next tag-listing request: function resources only, fifty
/// mappings a page, continuing from the given token, restricted by the
/// given filters.
pub fn tagging_request(token: Option<String>, tag_filters: Option<Vec<TagFilter>>) -> (r:
    GetResourcesRequest)
    ensures
        r.resource_type_filters is Some,
        r.resource_type_filters->0@.len() == 1,
        r.resource_type_filters->0@[0]@ == "lambda:function"@,
        r.resources_per_page == Option::Some(50i64),
        r.pagination_token == token,
        r.tag_filters == tag_filters,
{
    let mut types: Vec<String> = Vec::new();
    types.push(String::from_str("lambda:function"));
    GetResourcesRequest {
        resource_type_filters: Option::Some(types),
        resources_per_page: Option::Some(50),
        pagination_token: token,
        tag_filters,
    }
}

/// One listing drained under the retry policy: the paginator accumulates
/// the pages; `attempts` counts the failed fetches of the current page.
pub struct PagedSession<T> {
    pub paginator: Paginator<T>,
    pub policy: RetryPolicy,
    pub attempts: u64,
}

impl<T> PagedSession<T> {
    pub open spec fn wf(self) -> bool {
        self.paginator.wf()
    }

    /// A fresh session under the given policy.
    pub fn new(policy: RetryPolicy) -> (s: Self)
        ensures
            s.wf(),
            s.policy == policy,
            s.attempts == 0,
            !s.paginator.spec_done(),
            s.paginator.pages() == Seq::<Seq<T>>::empty(),
            s.paginator.spec_token() is None,
    {
        PagedSession { paginator: Paginator::new(), policy, attempts: 0 }
    }

    /// Absorbs a successfully fetched page and resets the failure count,
    /// so the next page starts with the full retry budget.
    pub fn on_page(&mut self, page: PageResult<T>)
        requires
            old(self).wf(),
            !old(self).paginator.spec_done(),
        ensures
            final(self).wf(),
            final(self).policy == old(self).policy,
            final(self).attempts == 0,
            final(self).paginator.pages() == old(self).paginator.pages().push(page.items@),
            final(self).paginator.spec_items() == old(self).paginator.spec_items() + page.items@,
            final(self).paginator.spec_done() == page.spec_terminal(),
            final(self).paginator.spec_token() == page.next_token,
    {
        self.paginator.absorb(page);
        self.attempts = 0;
    }

    /// Decides after a failed fetch: `Some(delay)` to retry the same page
    /// after that many un-jittered milliseconds, `None` to give up and
    /// surface the failure. Retries happen only on a retryable failure
    /// with budget left.
    pub fn on_error(&mut self, retryable: bool) -> (d: Option<u64>)
        ensures
            final(self).paginator == old(self).paginator,
            final(self).policy == old(self).policy,
            d is Some <==> (retryable && old(self).attempts < old(self).policy.max_retries),
            d is Some ==> d->0 == old(self).policy.spec_backoff_delay_ms(old(self).attempts)
                && final(self).attempts == old(self).attempts + 1,
            d is None ==> *final(self) == *old(self),
    {
        if self.policy.should_retry(self.attempts, retryable) {
            let delay = self.policy.backoff_delay_ms(self.attempts);
            self.attempts = self.attempts + 1;
            Option::Some(delay)
        } else {
            Option::None
        }
    }
}

/// The function-listing session as the tool runs it, under the standard
/// policy.
pub fn listing_session() -> (s: PagedSession<FunctionRecord>)
    ensures
        s.wf(),
        s.attempts == 0,
        !s.paginator.spec_done(),
        s.paginator.pages() == Seq::<Seq<FunctionRecord>>::empty(),
        s.paginator.spec_token() is None,
        s.policy.base_delay_ms == 100,
        s.policy.jitter,
        s.policy.max_retries == 15,
{
    PagedSession::new(RetryPolicy::standard())
}

/// The tag-listing session as the tool runs it, under the standard policy.
pub fn tagging_session() -> (s: PagedSession<TagMapping>)
    ensures
        s.wf(),
        s.attempts == 0,
        !s.paginator.spec_done(),
        s.paginator.pages() == Seq::<Seq<TagMapping>>::empty(),
        s.paginator.spec_token() is None,
        s.policy.base_delay_ms == 100,
        s.policy.jitter,
        s.policy.max_retries == 15,
{
    PagedSession::new(RetryPolicy::standard())
}

} // verus!
