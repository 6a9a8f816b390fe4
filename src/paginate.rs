use crate::client::{ApiResult, DataEnvelope};
use crate::errors::{classify, ClientError, ErrorEnvelope};
use vstd::prelude::*;

verus! {

/// The largest page the API serves, and the page size that a complete fetch assumes.
pub const PAGE_SIZE: usize = 250;

/// When a complete fetch stops, per resource kind.
#[derive(Clone, Copy, Debug, PartialEq, Eq, Structural)]
pub enum PagePolicy {
    /// Stop once the page just fetched is past the announced number of pages.
    CountOnly,
    /// As `CountOnly`, and also stop after a page whose size is not a multiple of the page size.
    CountOrShortPage,
}

/// The number of pages that a reported total count announces: the count divided
/// by the page size in integers. The page after them is requested too, so a
/// count of 251 is fetched in two pages.
pub open spec fn announced_pages(count: usize) -> nat {
    (count / PAGE_SIZE) as nat
}

/// The announced number of pages after a response: recomputed from a reported
/// count, kept as it was when the response reports none.
pub open spec fn next_total_pages(total_pages: nat, count: Option<usize>) -> nat {
    match count {
        Some(n) => announced_pages(n),
        None => total_pages,
    }
}

/// Whether a fetch stops after a successful page of `page_len` entities, the
/// page number being `page` and the announced number of pages `total_pages`.
pub open spec fn stops_after(policy: PagePolicy, page: nat, total_pages: nat, page_len: nat) -> bool {
    match policy {
        PagePolicy::CountOnly => page > total_pages,
        PagePolicy::CountOrShortPage => page_len % (PAGE_SIZE as nat) != 0 || page > total_pages,
    }
}

/// The state of a complete fetch, as mathematics.
pub struct PagerState<T> {
    pub policy: PagePolicy,
    /// The 1-based number of the page to request next.
    pub page: nat,
    pub total_pages: nat,
    /// The entities collected so far, in the order they arrived.
    pub items: Seq<T>,
}

/// The state at the start of a complete fetch.
pub open spec fn start_state<T>(policy: PagePolicy) -> PagerState<T> {
    PagerState { policy, page: 1, total_pages: 0, items: Seq::empty() }
}

/// What one response does to a complete fetch.
pub enum StepModel<T> {
    Continue(PagerState<T>),
    Done(Seq<T>),
    Failed(ClientError),
}

/// The effect of one response on a complete fetch: a failure envelope ends it
/// with the classified error; a success appends its entities and then either
/// stops with everything collected or moves on to the next page.
pub open spec fn step_model<T>(s: PagerState<T>, resp: ApiResult<Vec<T>>) -> StepModel<T> {
    match resp {
        ApiResult::Failure(e) => StepModel::Failed(classify(e)),
        ApiResult::Success(env) => {
            let items = s.items + env.data@;
            let total_pages = next_total_pages(s.total_pages, env.total_count);
            if stops_after(s.policy, s.page, total_pages, env.data@.len()) {
                StepModel::Done(items)
            } else {
                StepModel::Continue(PagerState { policy: s.policy, page: s.page + 1, total_pages, items })
            }
        },
    }
}

/// Where a complete fetch stands after the responses it was given ran out or ended it.
pub enum RunModel<T> {
    Collected(Seq<T>),
    Failed(ClientError),
    /// The responses ran out before the fetch ended; this is its state.
    Unfinished(PagerState<T>),
}

/// A complete fetch from state `s`, where `rs[i]`, `rs[i + 1]`, ... answer its
/// successive requests: how it ends and how many requests it made.
pub open spec fn run_from<T>(s: PagerState<T>, rs: Seq<ApiResult<Vec<T>>>, i: nat) -> (RunModel<T>, nat)
    decreases rs.len() - i,
{
    if i >= rs.len() {
        (RunModel::Unfinished(s), 0)
    } else {
        match step_model(s, rs[i as int]) {
            StepModel::Continue(t) => {
                let (o, n) = run_from(t, rs, i + 1);
                (o, n + 1)
            },
            StepModel::Done(v) => (RunModel::Collected(v), 1),
            StepModel::Failed(e) => (RunModel::Failed(e), 1),
        }
    }
}

/// Whether a fetch in state `s`, answered by `rs[i]`, `rs[i + 1]`, ..., goes on
/// to request the page answered by `rs[j]`, being then in state `t`.
pub open spec fn reaches<T>(s: PagerState<T>, rs: Seq<ApiResult<Vec<T>>>, i: nat, j: nat, t: PagerState<T>) -> bool
    decreases j - i,
{
    if i == j {
        s == t
    } else if i < j && i < rs.len() {
        match step_model(s, rs[i as int]) {
            StepModel::Continue(u) => reaches(u, rs, i + 1, j, t),
            _ => false,
        }
    } else {
        false
    }
}

/// The entities of a success envelope; none for an error envelope.
pub open spec fn data_of<T>(r: ApiResult<Vec<T>>) -> Seq<T> {
    match r {
        ApiResult::Success(env) => env.data@,
        ApiResult::Failure(_) => Seq::empty(),
    }
}

/// The entities of the first `k` responses, in order.
pub open spec fn flatten_pages<T>(rs: Seq<ApiResult<Vec<T>>>, k: nat) -> Seq<T>
    decreases k,
{
    if k == 0 {
        Seq::empty()
    } else {
        flatten_pages(rs, (k - 1) as nat) + data_of(rs[k - 1])
    }
}

/// The responses are those of a server holding `n` entities: each of the
/// announced pages is full, the page after them holds the rest, the first page
/// reports `n` and each later one reports `n` or nothing.
pub open spec fn serves_count<T>(rs: Seq<ApiResult<Vec<T>>>, n: usize) -> bool {
    let m = announced_pages(n);
    &&& rs.len() > m
    &&& forall|i: int|
        0 <= i <= m ==> match #[trigger] rs[i] {
            ApiResult::Success(env) => {
                &&& (env.total_count == Some(n) || (i > 0 && env.total_count is None))
                &&& env.data@.len() == if i < m { PAGE_SIZE as nat } else { (n % PAGE_SIZE) as nat }
            },
            ApiResult::Failure(_) => false,
        }
}

proof fn lemma_flatten_full_pages<T>(rs: Seq<ApiResult<Vec<T>>>, n: usize, j: nat)
    requires
        serves_count(rs, n),
        j <= announced_pages(n) + 1,
    ensures
        flatten_pages(rs, j).len() == if j <= announced_pages(n) {
            PAGE_SIZE * j
        } else {
            PAGE_SIZE * announced_pages(n) + n % PAGE_SIZE
        },
    decreases j,
{
    if j > 0 {
        lemma_flatten_full_pages(rs, n, (j - 1) as nat);
        let r = rs[j - 1];
        assert(r is Success);
    }
}

proof fn lemma_counted_from<T>(policy: PagePolicy, n: usize, rs: Seq<ApiResult<Vec<T>>>, j: nat)
    requires
        n % PAGE_SIZE != 0,
        serves_count(rs, n),
        j <= announced_pages(n),
    ensures
        run_from(
            PagerState {
                policy,
                page: j + 1,
                total_pages: if j == 0 { 0 } else { announced_pages(n) },
                items: flatten_pages(rs, j),
            },
            rs,
            j,
        ) == (RunModel::Collected(flatten_pages(rs, announced_pages(n) + 1)), (announced_pages(n) + 1 - j) as nat),
    decreases announced_pages(n) - j,
{
    let m = announced_pages(n);
    let r = rs[j as int];
    assert(r is Success);
    if j < m {
        lemma_counted_from(policy, n, rs, j + 1);
    }
}

/// A fetch of a resource whose server reports a total of `n` entities, with
/// every page full but the last, makes `n / PAGE_SIZE + 1` requests (the
/// number of pages that `n` entities fill, rounding up, when `n` is not a
/// multiple of the page size) and returns exactly the `n` entities served, in
/// order, under either policy.
pub proof fn lemma_counted_fetch<T>(policy: PagePolicy, n: usize, rs: Seq<ApiResult<Vec<T>>>)
    requires
        n % PAGE_SIZE != 0,
        serves_count(rs, n),
    ensures
        run_from(start_state::<T>(policy), rs, 0) == (
            RunModel::Collected(flatten_pages(rs, announced_pages(n) + 1)),
            announced_pages(n) + 1,
        ),
        announced_pages(n) + 1 == (n + PAGE_SIZE - 1) / (PAGE_SIZE as int),
        flatten_pages(rs, announced_pages(n) + 1).len() == n,
{
    lemma_counted_from(policy, n, rs, 0);
    assert(flatten_pages(rs, 0) =~= Seq::<T>::empty());
    lemma_flatten_full_pages(rs, n, announced_pages(n) + 1);
}

/// A failure envelope on any page that a fetch reaches ends the whole fetch
/// with that envelope's classified error, right after that request, and
/// nothing collected before it is returned.
pub proof fn lemma_failure_aborts<T>(
    s: PagerState<T>,
    rs: Seq<ApiResult<Vec<T>>>,
    i: nat,
    j: nat,
    t: PagerState<T>,
    e: ErrorEnvelope,
)
    requires
        reaches(s, rs, i, j, t),
        j < rs.len(),
        rs[j as int] == ApiResult::<Vec<T>>::Failure(e),
    ensures
        run_from(s, rs, i) == (RunModel::<T>::Failed(classify(e)), (j - i + 1) as nat),
    decreases j - i,
{
    if i < j {
        let u = step_model(s, rs[i as int])->Continue_0;
        lemma_failure_aborts(u, rs, i + 1, j, t, e);
    }
}

/// Under `CountOnly`, a first page that reports no total count ends the
/// fetch: one request is made and its entities are the result.
pub proof fn lemma_no_count_single_page<T>(rs: Seq<ApiResult<Vec<T>>>)
    requires
        rs.len() >= 1,
        rs[0] matches ApiResult::Success(env) && env.total_count is None,
    ensures
        run_from(start_state::<T>(PagePolicy::CountOnly), rs, 0) == (RunModel::Collected(data_of(rs[0])), 1nat),
{
    assert(Seq::<T>::empty() + data_of(rs[0]) =~= data_of(rs[0]));
}

/// Under `CountOrShortPage`, a first page of fewer than `PAGE_SIZE` entities,
/// but at least one, ends the fetch whatever count it reports: one request is
/// made and its entities are the result.
pub proof fn lemma_short_first_page<T>(rs: Seq<ApiResult<Vec<T>>>)
    requires
        rs.len() >= 1,
        rs[0] matches ApiResult::Success(env) && 0 < env.data@.len() < PAGE_SIZE,
    ensures
        run_from(start_state::<T>(PagePolicy::CountOrShortPage), rs, 0) == (
            RunModel::Collected(data_of(rs[0])),
            1nat,
        ),
{
    assert(Seq::<T>::empty() + data_of(rs[0]) =~= data_of(rs[0]));
}

/// The state of a complete fetch: the page to request next, the announced
/// number of pages, and what has been collected.
pub struct Paginator<T> {
    pub policy: PagePolicy,
    pub page: usize,
    pub total_pages: usize,
    pub items: Vec<T>,
}

impl<T> View for Paginator<T> {
    type V = PagerState<T>;

    open spec fn view(&self) -> PagerState<T> {
        PagerState {
            policy: self.policy,
            page: self.page as nat,
            total_pages: self.total_pages as nat,
            items: self.items@,
        }
    }
}

/// What the caller of a complete fetch does next.
pub enum Step<T> {
    /// Request the paginator's page and hand its response to the paginator.
    Continue(Paginator<T>),
    /// The fetch is complete: this is the whole collection.
    Done(Vec<T>),
    /// The fetch failed: this error is the result, and nothing collected is kept.
    Failed(ClientError),
}

impl<T> Step<T> {
    /// The step as mathematics: the paginator replaced by its state, the
    /// collection by its sequence.
    pub open spec fn model(self) -> StepModel<T> {
        match self {
            Step::Continue(p) => StepModel::Continue(p@),
            Step::Done(v) => StepModel::Done(v@),
            Step::Failed(e) => StepModel::Failed(e),
        }
    }
}

impl<T> Paginator<T> {
    /// The announced number of pages is one that a reported count can give,
    /// so the page number can always move on past it.
    pub open spec fn wf(&self) -> bool {
        self.total_pages <= usize::MAX / PAGE_SIZE
    }

    /// A fetch that has collected nothing and will request page 1.
    pub fn new(policy: PagePolicy) -> (r: Paginator<T>)
        ensures
            r@ == start_state::<T>(policy),
            r.wf(),
    {
        Paginator { policy, page: 1, total_pages: 0, items: Vec::new() }
    }

    /// The 1-based number of the page to request next.
    pub fn next_page(&self) -> (r: usize)
        ensures
            r == self.page,
    {
        self.page
    }

    /// Takes the response to the page `next_page` names and decides what follows.
    pub fn advance(self, resp: ApiResult<Vec<T>>) -> (r: Step<T>)
        requires
            self.wf(),
        ensures
            r.model() == step_model(self@, resp),
            r matches Step::Continue(p) ==> p.wf(),
    {
        let Paginator { policy, page, total_pages, items } = self;
        let mut items = items;
        match resp {
            ApiResult::Failure(e) => Step::Failed(ClientError::from(e)),
            ApiResult::Success(env) => {
                let DataEnvelope { data, total_count } = env;
                let mut data = data;
                let page_len = data.len();
                items.append(&mut data);
                let total_pages = match total_count {
                    Some(n) => n / PAGE_SIZE,
                    None => total_pages,
                };
                let stop = match policy {
                    PagePolicy::CountOnly => page > total_pages,
                    PagePolicy::CountOrShortPage => page_len % PAGE_SIZE != 0 || page > total_pages,
                };
                if stop {
                    Step::Done(items)
                } else {
                    Step::Continue(Paginator { policy, page: page + 1, total_pages, items })
                }
            },
        }
    }
}

} // verus!
