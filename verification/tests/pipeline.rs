use lambstock::Error;
use lambstock::FunctionRecord;
use lambstock::ListingError;
use lambstock::PageResult;
use lambstock::Paginator;
use lambstock::RetryPolicy;
use lambstock::Retryable;
use lambstock::Tag;
use lambstock::TagMapping;
use lambstock::TaggingError;
use lambstock::apply_jitter;
use lambstock::join_functions;
use lambstock::listing_request;
use lambstock::listing_session;
use lambstock::run_retry;
use lambstock::tag_keys;
use lambstock::tagging_request;
use lambstock::tagging_session;

fn rec(arn: &str) -> FunctionRecord {
    FunctionRecord {
        function_name: Some(format!("name-{}", arn)),
        function_arn: Some(arn.to_string()),
        runtime: Some("rust".to_string()),
        code_size: Some(1),
    }
}

fn mapping(arn: &str, tags: &[(&str, &str)]) -> TagMapping {
    TagMapping {
        resource_arn: Some(arn.to_string()),
        tags: Some(
            tags.iter()
                .map(|(k, v)| Tag { key: k.to_string(), value: v.to_string() })
                .collect(),
        ),
    }
}

#[test]
fn paginator_concatenates_pages_in_order() {
    let mut p: Paginator<i32> = Paginator::new();
    assert!(!p.is_done());
    assert!(p.token().is_none());
    p.absorb(PageResult { items: vec![1, 2], next_token: Some("t1".to_string()) });
    assert!(!p.is_done());
    assert_eq!(p.token().as_deref(), Some("t1"));
    p.absorb(PageResult { items: vec![3], next_token: None });
    assert!(p.is_done());
    assert_eq!(p.into_items(), vec![1, 2, 3]);
}

#[test]
fn empty_token_is_terminal_whatever_the_items() {
    let mut p: Paginator<i32> = Paginator::new();
    p.absorb(PageResult { items: vec![1, 2, 3], next_token: Some(String::new()) });
    assert!(p.is_done());
    assert_eq!(p.into_items(), vec![1, 2, 3]);
}

#[test]
fn terminal_page_with_no_items_ends_empty_listing() {
    let mut p: Paginator<i32> = Paginator::new();
    p.absorb(PageResult { items: Vec::new(), next_token: None });
    assert!(p.is_done());
    assert!(p.into_items().is_empty());
}

#[test]
fn terminal_depends_on_token_alone() {
    assert!(PageResult { items: vec![1, 2, 3], next_token: None::<String> }.is_terminal());
    assert!(PageResult { items: Vec::<i32>::new(), next_token: Some(String::new()) }.is_terminal());
    assert!(!PageResult { items: Vec::<i32>::new(), next_token: Some("more".to_string()) }
        .is_terminal());
}

#[test]
fn no_retry_when_predicate_refuses() {
    let policy = RetryPolicy::standard();
    let mut outcomes: Vec<Result<i32, ListingError>> =
        vec![Err(ListingError::Other("boom".into()))];
    for _ in 0..20 {
        outcomes.push(Ok(7));
    }
    let (result, attempts) = run_retry(&policy, outcomes);
    assert_eq!(attempts, 1);
    assert!(matches!(result, Err(ListingError::Other(_))));
}

#[test]
fn at_most_one_more_attempt_than_retries() {
    let policy = RetryPolicy::standard();
    let outcomes: Vec<Result<i32, ListingError>> =
        (0..20).map(|_| Err(ListingError::TooManyRequests("slow down".into()))).collect();
    let (result, attempts) = run_retry(&policy, outcomes);
    assert_eq!(attempts, 16);
    assert!(matches!(result, Err(ListingError::TooManyRequests(_))));
}

#[test]
fn retries_stop_at_first_success() {
    let policy = RetryPolicy::standard();
    let mut outcomes: Vec<Result<i32, ListingError>> = vec![
        Err(ListingError::TooManyRequests("1".into())),
        Err(ListingError::TooManyRequests("2".into())),
        Ok(5),
    ];
    for _ in 0..20 {
        outcomes.push(Ok(0));
    }
    let (result, attempts) = run_retry(&policy, outcomes);
    assert_eq!(attempts, 3);
    assert_eq!(result.unwrap(), 5);
}

#[test]
fn backoff_doubles_from_base_delay() {
    let policy = RetryPolicy::standard();
    assert_eq!(policy.backoff_delay_ms(0), 100);
    assert_eq!(policy.backoff_delay_ms(1), 200);
    assert_eq!(policy.backoff_delay_ms(4), 1600);
}

#[test]
fn jitter_scales_the_delay() {
    assert_eq!(apply_jitter(100, 0), 0);
    assert_eq!(apply_jitter(100, 500), 50);
    assert_eq!(apply_jitter(100, 1000), 100);
    assert_eq!(apply_jitter(3, 500), 1);
}

#[test]
fn listing_retries_only_on_throttling() {
    assert!(ListingError::TooManyRequests("x".into()).is_retryable());
    assert!(!ListingError::Other("x".into()).is_retryable());
}

#[test]
fn tagging_retries_only_on_invalid_parameter() {
    assert!(TaggingError::InvalidParameter("x".into()).is_retryable());
    assert!(!TaggingError::Other("x".into()).is_retryable());
}

#[test]
fn errors_keep_their_source_and_message() {
    let listing = Error::from(ListingError::Other("bad listing".to_string()));
    assert!(matches!(listing, Error::Listing(_)));
    assert_eq!(listing.message(), "bad listing");
    let tagging = Error::from(TaggingError::InvalidParameter("bad filter".to_string()));
    assert!(matches!(tagging, Error::Tags(_)));
    assert_eq!(tagging.message(), "bad filter");
}

#[test]
fn session_retries_then_gives_up() {
    let mut s = tagging_session();
    for i in 0..15u32 {
        assert_eq!(s.on_error(true), Some(100u64 << i));
    }
    assert_eq!(s.on_error(true), None);
}

#[test]
fn session_never_retries_refused_failure() {
    let mut s = tagging_session();
    assert_eq!(s.on_error(false), None);
    assert_eq!(s.attempts, 0);
}

#[test]
fn session_success_resets_the_budget() {
    let mut s = listing_session();
    assert_eq!(s.on_error(true), Some(100));
    assert_eq!(s.attempts, 1);
    s.on_page(PageResult { items: vec![rec("a")], next_token: Some("next".to_string()) });
    assert_eq!(s.attempts, 0);
    assert_eq!(s.on_error(true), Some(100));
}

#[test]
fn listing_request_page_size_and_token() {
    let r = listing_request(Some("m".to_string()));
    assert_eq!(r.max_items, Some(100));
    assert_eq!(r.marker.as_deref(), Some("m"));
    assert!(listing_request(None).marker.is_none());
}

#[test]
fn tagging_request_targets_function_resources() {
    let r = tagging_request(None, None);
    assert_eq!(r.resource_type_filters, Some(vec!["lambda:function".to_string()]));
    assert_eq!(r.resources_per_page, Some(50));
    assert!(r.pagination_token.is_none());
    assert!(r.tag_filters.is_none());
}

#[test]
fn join_keeps_matched_drops_unmatched() {
    let functions = vec![rec("A"), rec("B")];
    let mappings = vec![mapping("A", &[("x", "1")]), mapping("C", &[("y", "2")])];
    let joined = join_functions(&functions, mappings);
    assert_eq!(joined.len(), 1);
    assert_eq!(joined[0].config.function_arn.as_deref(), Some("A"));
    assert_eq!(joined[0].tags, vec![Tag { key: "x".into(), value: "1".into() }]);
}

#[test]
fn join_follows_tag_listing_order() {
    let functions = vec![rec("A"), rec("B")];
    let mappings = vec![mapping("B", &[]), mapping("A", &[])];
    let joined = join_functions(&functions, mappings);
    assert_eq!(joined.len(), 2);
    assert_eq!(joined[0].config.function_arn.as_deref(), Some("B"));
    assert_eq!(joined[1].config.function_arn.as_deref(), Some("A"));
}

#[test]
fn join_later_record_wins_on_repeated_identifier() {
    let mut first = rec("A");
    first.function_name = Some("old".to_string());
    let mut second = rec("A");
    second.function_name = Some("new".to_string());
    let joined = join_functions(&vec![first, second], vec![mapping("A", &[])]);
    assert_eq!(joined.len(), 1);
    assert_eq!(joined[0].config.function_name.as_deref(), Some("new"));
}

#[test]
fn join_absent_tag_list_reads_as_empty() {
    let functions = vec![rec("A")];
    let mappings = vec![TagMapping { resource_arn: Some("A".to_string()), tags: None }];
    let joined = join_functions(&functions, mappings);
    assert_eq!(joined.len(), 1);
    assert!(joined[0].tags.is_empty());
}

#[test]
fn tag_keys_sorted_and_deduplicated() {
    let mappings = vec![
        mapping("f1", &[("b", "1")]),
        mapping("f2", &[("a", "2"), ("a", "3")]),
        mapping("f3", &[("c", "4")]),
    ];
    assert_eq!(tag_keys(&mappings), vec!["a".to_string(), "b".to_string(), "c".to_string()]);
}
