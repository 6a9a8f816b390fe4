use pokemon_tcg_sdk::client::{page_query_params, ApiResult, DataEnvelope};
use pokemon_tcg_sdk::errors::{ApiError, ClientError, ErrorEnvelope};
use pokemon_tcg_sdk::paginate::{PagePolicy, Paginator, Step, PAGE_SIZE};

fn page(items: std::ops::Range<u32>, total_count: Option<usize>) -> ApiResult<Vec<u32>> {
    ApiResult::Success(DataEnvelope { data: items.collect(), total_count })
}

/// Runs a complete fetch against a server that answers request `k` (from 1)
/// with `serve(k)`: the requested page numbers and the result.
fn run(
    policy: PagePolicy,
    serve: impl Fn(usize) -> ApiResult<Vec<u32>>,
) -> (Vec<usize>, Result<Vec<u32>, ClientError>) {
    let mut pager = Paginator::new(policy);
    let mut requested = vec![];
    loop {
        let k = pager.next_page();
        requested.push(k);
        assert!(requested.len() < 100, "the fetch does not stop");
        match pager.advance(serve(k)) {
            Step::Continue(p) => pager = p,
            Step::Done(v) => return (requested, Ok(v)),
            Step::Failed(e) => return (requested, Err(e)),
        }
    }
}

fn full_then_rest(n: u32) -> impl Fn(usize) -> ApiResult<Vec<u32>> {
    move |k| {
        let start = (k as u32 - 1) * 250;
        let end = std::cmp::min(start + 250, n).max(start);
        page(start..end, Some(n as usize))
    }
}

#[test]
fn get_all_cards_makes_multiple_requests() {
    // Every request answers with one card and a total count of 251.
    let (requested, result) = run(PagePolicy::CountOnly, |_| page(0..1, Some(251)));
    assert_eq!(requested, vec![1, 2]);
    assert_eq!(result.unwrap(), vec![0, 0]);
    let params = page_query_params(2);
    assert_eq!(params, vec![(String::from("page"), String::from("2"))]);
}

#[test]
fn count_of_251_takes_two_pages() {
    let (requested, result) = run(PagePolicy::CountOnly, full_then_rest(251));
    assert_eq!(requested, vec![1, 2]);
    assert_eq!(result.unwrap(), (0..251).collect::<Vec<u32>>());
}

#[test]
fn count_of_600_takes_three_pages_in_order() {
    for policy in [PagePolicy::CountOnly, PagePolicy::CountOrShortPage] {
        let (requested, result) = run(policy, full_then_rest(600));
        assert_eq!(requested, vec![1, 2, 3]);
        assert_eq!(result.unwrap(), (0..600).collect::<Vec<u32>>());
    }
}

#[test]
fn count_on_page_boundary_requests_one_more_page() {
    let (requested, result) = run(PagePolicy::CountOnly, full_then_rest(500));
    assert_eq!(requested, vec![1, 2, 3]);
    assert_eq!(result.unwrap().len(), 500);
}

#[test]
fn count_kept_when_later_pages_omit_it() {
    let (requested, result) = run(PagePolicy::CountOnly, |k| {
        let start = (k as u32 - 1) * 250;
        if k == 1 {
            page(start..start + 250, Some(600))
        } else {
            page(start..std::cmp::min(start + 250, 600), None)
        }
    });
    assert_eq!(requested, vec![1, 2, 3]);
    assert_eq!(result.unwrap().len(), 600);
}

#[test]
fn no_count_takes_one_page_for_cards() {
    let (requested, result) = run(PagePolicy::CountOnly, |_| page(0..250, None));
    assert_eq!(requested, vec![1]);
    assert_eq!(result.unwrap().len(), 250);
}

#[test]
fn empty_first_page_without_count_is_empty_result() {
    let (requested, result) = run(PagePolicy::CountOnly, |_| page(0..0, None));
    assert_eq!(requested, vec![1]);
    assert!(result.unwrap().is_empty());
}

#[test]
fn short_first_page_stops_sets_whatever_the_count() {
    let (requested, result) = run(PagePolicy::CountOrShortPage, |_| page(0..3, Some(10_000)));
    assert_eq!(requested, vec![1]);
    assert_eq!(result.unwrap(), vec![0, 1, 2]);
}

#[test]
fn short_first_page_does_not_stop_cards_with_a_count() {
    let (requested, _) = run(PagePolicy::CountOnly, |_| page(0..3, Some(600)));
    assert_eq!(requested, vec![1, 2, 3]);
}

#[test]
fn failure_on_second_page_discards_first() {
    let (requested, result) = run(PagePolicy::CountOnly, |k| {
        if k == 1 {
            page(0..250, Some(600))
        } else {
            ApiResult::Failure(ErrorEnvelope {
                error: ApiError { message: String::from("gone"), code: 404 },
            })
        }
    });
    assert_eq!(requested, vec![1, 2]);
    match result {
        Err(ClientError::NotFound(e)) => assert_eq!(e.error.message, "gone"),
        _ => panic!("expected NotFound"),
    }
}

#[test]
fn failure_on_first_page_is_returned() {
    let (requested, result) = run(PagePolicy::CountOrShortPage, |_| {
        ApiResult::Failure(ErrorEnvelope { error: ApiError { message: String::from("slow down"), code: 429 } })
    });
    assert_eq!(requested, vec![1]);
    assert!(matches!(result, Err(ClientError::TooManyRequests(_))));
}

#[test]
fn new_paginator_starts_at_page_one() {
    let pager: Paginator<u32> = Paginator::new(PagePolicy::CountOnly);
    assert_eq!(pager.next_page(), 1);
    assert_eq!(pager.total_pages, 0);
    assert!(pager.items.is_empty());
    assert_eq!(PAGE_SIZE, 250);
}
