//! Cursor-driven walk over a paginated resource.
//!
//! A [`PageStream`] decides which page to fetch next and what to emit for
//! each page that came back; the caller performs the fetch itself.  Pages are
//! numbered from 1.  After a page `n` that reports `total_pages`, the walk
//! goes on with `n + 1` while `n < total_pages`; a failed fetch emits one
//! error and ends the walk.
use vstd::prelude::*;

verus! {

/// One page of a paginated resource, as the server sent it.
#[derive(Debug, PartialEq)]
pub struct Page<T> {
    pub total_pages: i32,
    pub items: Vec<T>,
}

/// A page that could not be fetched or decoded.
#[derive(Debug, PartialEq)]
pub struct FetchError {
    pub message: String,
}

/// The pagination cursor: the page to fetch next, or `None` once the walk
/// is over.
#[derive(Debug)]
pub struct PageStream {
    cursor: Option<i32>,
}

/// The items a fetch outcome contributes to the stream.
pub open spec fn emitted<T>(outcome: Result<Page<T>, FetchError>) -> Seq<Result<T, FetchError>> {
    match outcome {
        Ok(page) => page.items@.map_values(|x: T| Ok::<T, FetchError>(x)),
        Err(e) => seq![Err(e)],
    }
}

/// The cursor after the page under `cursor` came back as `outcome`.
pub open spec fn next_cursor<T>(cursor: Option<i32>, outcome: Result<Page<T>, FetchError>) -> Option<
    i32,
> {
    match cursor {
        None => None,
        Some(n) => match outcome {
            Ok(page) => if n < page.total_pages {
                Some((n + 1) as i32)
            } else {
                None
            },
            Err(_) => None,
        },
    }
}

/// What the stream emits when `outcome` arrives while the cursor is `cursor`.
pub open spec fn step_output<T>(cursor: Option<i32>, outcome: Result<Page<T>, FetchError>) -> Seq<
    Result<T, FetchError>,
> {
    if cursor is Some {
        emitted(outcome)
    } else {
        Seq::empty()
    }
}

/// A bound that shrinks with every step of the walk.
pub open spec fn cursor_measure(cursor: Option<i32>) -> int {
    match cursor {
        Some(n) => i32::MAX - n + 1,
        None => 0,
    }
}

/// The outcome of fetching page `n` from a server whose answers to pages
/// `1, 2, ...` are `server[0], server[1], ...`.
pub open spec fn answer<T>(server: Seq<Result<Page<T>, FetchError>>, n: i32) -> Result<
    Page<T>,
    FetchError,
> {
    server[n - 1]
}

/// Everything a walk from `cursor` emits against `server`, in order.
pub open spec fn drain<T>(cursor: Option<i32>, server: Seq<Result<Page<T>, FetchError>>) -> Seq<
    Result<T, FetchError>,
>
    decreases cursor_measure(cursor),
{
    match cursor {
        None => Seq::empty(),
        Some(n) => {
            let outcome = answer(server, n);
            emitted(outcome) + drain(next_cursor(cursor, outcome), server)
        },
    }
}

/// The page numbers a walk from `cursor` fetches from `server`, in order.
pub open spec fn fetched_pages<T>(cursor: Option<i32>, server: Seq<Result<Page<T>, FetchError>>) -> Seq<
    i32,
>
    decreases cursor_measure(cursor),
{
    match cursor {
        None => Seq::empty(),
        Some(n) => seq![n] + fetched_pages(next_cursor(cursor, answer(server, n)), server),
    }
}

/// A server that answers every page in `pages` successfully.
pub open spec fn serving<T>(pages: Seq<Page<T>>) -> Seq<Result<Page<T>, FetchError>> {
    pages.map_values(|p: Page<T>| Ok::<Page<T>, FetchError>(p))
}

/// The items of `pages`, each wrapped in `Ok`, page after page.
pub open spec fn page_results<T>(pages: Seq<Page<T>>) -> Seq<Result<T, FetchError>> {
    pages.map_values(|p: Page<T>| emitted(Ok::<Page<T>, FetchError>(p))).flatten()
}

/// The page numbers `first, first + 1, ..., last`.
pub open spec fn page_range(first: int, last: int) -> Seq<i32> {
    Seq::new((last - first + 1) as nat, |i: int| (first + i) as i32)
}

impl PageStream {
    pub closed spec fn cursor(&self) -> Option<i32> {
        self.cursor
    }

    /// A walk that starts at page 1.
    pub fn new() -> (s: PageStream)
        ensures
            s.cursor() == Some(1i32),
    {
        PageStream { cursor: Some(1) }
    }

    /// The page to fetch next, or `None` once the walk is over.
    pub fn next_page(&self) -> (r: Option<i32>)
        ensures
            r == self.cursor(),
    {
        self.cursor
    }

    /// Whether the walk is over: no further fetch is to be made.
    pub fn is_finished(&self) -> (r: bool)
        ensures
            r == (self.cursor() is None),
    {
        self.cursor.is_none()
    }

    /// Takes the outcome of fetching the page under the cursor and returns
    /// what the stream emits for it: the page's items, or the one error.
    /// Once the walk is over nothing more is emitted.
    pub fn receive<T>(&mut self, outcome: Result<Page<T>, FetchError>) -> (r: Vec<
        Result<T, FetchError>,
    >)
        ensures
            r@ == step_output(old(self).cursor(), outcome),
            final(self).cursor() == next_cursor(old(self).cursor(), outcome),
    {
        match self.cursor {
            None => Vec::new(),
            Some(n) => match outcome {
                Ok(page) => {
                    let next = if n < page.total_pages {
                        Some(n + 1)
                    } else {
                        None
                    };
                    self.cursor = next;
                    let mut out: Vec<Result<T, FetchError>> = Vec::new();
                    let ghost items = page.items@;
                    for item in it: page.items.into_iter()
                        invariant
                            it.seq() == items,
                            out@ == items.take(it.index() as int).map_values(
                                |x: T| Ok::<T, FetchError>(x),
                            ),
                    {
                        assert(items.take(it.index() as int + 1) =~= items.take(
                            it.index() as int,
                        ).push(item));
                        out.push(Ok(item));
                    }
                    assert(items.take(items.len() as int) =~= items);
                    out
                },
                Err(e) => {
                    self.cursor = None;
                    vec![Err(e)]
                },
            },
        }
    }
}

/// The values among `results`, in order, with the failures left out.
pub open spec fn successes<T>(results: Seq<Result<T, FetchError>>) -> Seq<T>
    decreases results.len(),
{
    if results.len() == 0 {
        Seq::empty()
    } else {
        let prev = successes(results.drop_last());
        match results.last() {
            Ok(x) => prev.push(x),
            Err(_) => prev,
        }
    }
}

/// The items of a stream that arrived, in order, with the failures dropped:
/// for consumers that only want what could be fetched.
pub fn successful<T>(results: Vec<Result<T, FetchError>>) -> (r: Vec<T>)
    ensures
        r@ == successes(results@),
{
    let ghost all = results@;
    let mut out: Vec<T> = Vec::new();
    for result in it: results.into_iter()
        invariant
            it.seq() == all,
            out@ == successes(all.take(it.index() as int)),
    {
        assert(all.take(it.index() as int + 1).drop_last() =~= all.take(it.index() as int));
        assert(all.take(it.index() as int + 1).last() == result);
        match result {
            Ok(x) => out.push(x),
            Err(_) => {},
        }
    }
    assert(all.take(all.len() as int) =~= all);
    out
}

/// Walking from `Some(j)` over a server that answers pages `j..=k` with
/// pages that all report `k` pages fetches exactly those pages and emits
/// their items in order.
proof fn lemma_walk_from<T>(pages: Seq<Page<T>>, j: int)
    requires
        1 <= j <= pages.len() <= i32::MAX,
        forall|i: int| 0 <= i < pages.len() ==> #[trigger] pages[i].total_pages == pages.len(),
    ensures
        drain(Some(j as i32), serving(pages)) == page_results(pages.subrange(j - 1, pages.len() as int)),
        fetched_pages(Some(j as i32), serving(pages)) == page_range(j, pages.len() as int),
    decreases pages.len() - j,
{
    let k = pages.len() as int;
    let server = serving(pages);
    let rest = pages.subrange(j - 1, k);
    let outcome = answer(server, j as i32);
    assert(outcome == Ok::<Page<T>, FetchError>(pages[j - 1]));
    let mapped = rest.map_values(|p: Page<T>| emitted(Ok::<Page<T>, FetchError>(p)));
    assert(mapped.first() == emitted(outcome));
    if j < k {
        lemma_walk_from(pages, j + 1);
        assert(next_cursor(Some(j as i32), outcome) == Some((j + 1) as i32));
        assert(mapped.drop_first() =~= pages.subrange(j, k).map_values(
            |p: Page<T>| emitted(Ok::<Page<T>, FetchError>(p)),
        ));
        assert(page_range(j, k) =~= seq![j as i32] + page_range(j + 1, k));
    } else {
        assert(next_cursor(Some(j as i32), outcome) == None::<i32>);
        assert(mapped.drop_first() =~= Seq::<Seq<Result<T, FetchError>>>::empty());
        assert(mapped.drop_first().flatten() =~= Seq::<Result<T, FetchError>>::empty());
        assert(page_range(j, k) =~= seq![j as i32]);
    }
    assert(drain(Some(j as i32), server) == emitted(outcome) + drain(
        next_cursor(Some(j as i32), outcome),
        server,
    ));
    assert(fetched_pages(Some(j as i32), server) == seq![j as i32] + fetched_pages(
        next_cursor(Some(j as i32), outcome),
        server,
    ));
}

/// A walk over a resource whose `k >= 1` pages all report `k` pages fetches
/// pages `1..=k`, each once and in order (`k` fetches in all), and emits the
/// concatenation of all pages' items, page by page and in order within a page.
pub proof fn lemma_walk_complete<T>(pages: Seq<Page<T>>)
    requires
        1 <= pages.len() <= i32::MAX,
        forall|i: int| 0 <= i < pages.len() ==> #[trigger] pages[i].total_pages == pages.len(),
    ensures
        drain(Some(1i32), serving(pages)) == page_results(pages),
        fetched_pages(Some(1i32), serving(pages)) == page_range(1, pages.len() as int),
        fetched_pages(Some(1i32), serving(pages)).len() == pages.len(),
{
    lemma_walk_from(pages, 1);
    assert(pages.subrange(0, pages.len() as int) =~= pages);
}

/// Walking from `Some(j)` over a server whose answers are `pages`, then the
/// failure `e`, then `later`, emits the items of the pages from `j` on, then
/// `e`, and fetches nothing after the failed page.
proof fn lemma_failing_walk_from<T>(
    pages: Seq<Page<T>>,
    e: FetchError,
    later: Seq<Result<Page<T>, FetchError>>,
    k: int,
    j: int,
)
    requires
        1 <= j <= pages.len() + 1,
        pages.len() < k <= i32::MAX,
        forall|i: int| 0 <= i < pages.len() ==> #[trigger] pages[i].total_pages == k,
    ensures
        drain(Some(j as i32), serving(pages) + seq![Err(e)] + later) == page_results(
            pages.subrange(j - 1, pages.len() as int),
        ) + seq![Err::<T, FetchError>(e)],
        fetched_pages(Some(j as i32), serving(pages) + seq![Err(e)] + later) == page_range(
            j,
            pages.len() as int + 1,
        ),
    decreases pages.len() + 1 - j,
{
    let m = pages.len() as int + 1;
    let server = serving(pages) + seq![Err(e)] + later;
    let rest = pages.subrange(j - 1, m - 1);
    let outcome = answer(server, j as i32);
    let mapped = rest.map_values(|p: Page<T>| emitted(Ok::<Page<T>, FetchError>(p)));
    if j < m {
        assert(outcome == Ok::<Page<T>, FetchError>(pages[j - 1]));
        assert(mapped.first() == emitted(outcome));
        lemma_failing_walk_from(pages, e, later, k, j + 1);
        assert(next_cursor(Some(j as i32), outcome) == Some((j + 1) as i32));
        assert(mapped.drop_first() =~= pages.subrange(j, m - 1).map_values(
            |p: Page<T>| emitted(Ok::<Page<T>, FetchError>(p)),
        ));
        assert(page_range(j, m) =~= seq![j as i32] + page_range(j + 1, m));
        assert(drain(Some(j as i32), server) =~= emitted(outcome) + drain(
            Some((j + 1) as i32),
            server,
        ));
    } else {
        assert(outcome == Err::<Page<T>, FetchError>(e));
        assert(next_cursor(Some(j as i32), outcome) == None::<i32>);
        assert(mapped =~= Seq::<Seq<Result<T, FetchError>>>::empty());
        assert(page_results(rest) =~= Seq::<Result<T, FetchError>>::empty());
        assert(page_range(j, m) =~= seq![j as i32]);
        assert(drain(Some(j as i32), server) =~= emitted(outcome) + drain(None::<i32>, server));
    }
    assert(fetched_pages(Some(j as i32), server) == seq![j as i32] + fetched_pages(
        next_cursor(Some(j as i32), outcome),
        server,
    ));
}

/// A walk whose page `m` fails with `e`, after pages `1..m` came back
/// reporting `k >= m` pages, emits all items of pages `1..m` in order, then
/// exactly one `Err(e)`, and ends: it fetches pages `1..=m` and none after,
/// whatever the server would answer for later pages.
pub proof fn lemma_walk_fails_fast<T>(
    pages: Seq<Page<T>>,
    e: FetchError,
    later: Seq<Result<Page<T>, FetchError>>,
    k: int,
)
    requires
        pages.len() < k <= i32::MAX,
        forall|i: int| 0 <= i < pages.len() ==> #[trigger] pages[i].total_pages == k,
    ensures
        drain(Some(1i32), serving(pages) + seq![Err(e)] + later) == page_results(pages) + seq![
            Err::<T, FetchError>(e),
        ],
        fetched_pages(Some(1i32), serving(pages) + seq![Err(e)] + later) == page_range(
            1,
            pages.len() as int + 1,
        ),
{
    lemma_failing_walk_from(pages, e, later, k, 1);
    assert(pages.subrange(0, pages.len() as int) =~= pages);
}

} // verus!
