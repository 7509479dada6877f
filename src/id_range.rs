//! Partitioning of the 16-bit transaction-id space among worker threads.
use vstd::prelude::*;

verus! {

/// Number of transaction ids that are split among workers.
pub const ID_SPACE: u16 = 65535;

/// Smallest and largest number of workers a relay can run.
pub const MIN_WORKERS: u16 = 1;
pub const MAX_WORKERS: u16 = 255;

/// A half-open interval `[start, end)` of transaction ids.
#[derive(Clone, Copy, Debug, PartialEq, Eq, Structural)]
pub struct IdRange {
    pub start: u16,
    pub end: u16,
}

/// Size of the range each of `n` workers receives.
pub open spec fn bucket_size(n: int) -> int {
    ID_SPACE as int / n
}

/// The range of worker `i` among `n` workers.
pub open spec fn range_bounds(n: int, i: int) -> (int, int) {
    (i * bucket_size(n), (i + 1) * bucket_size(n))
}

pub open spec fn valid_worker(n: int, i: int) -> bool {
    MIN_WORKERS <= n <= MAX_WORKERS && 0 <= i < n
}

impl IdRange {
    pub open spec fn contains_spec(self, id: int) -> bool {
        self.start <= id < self.end
    }

    /// A range that a worker can draw ids from.
    pub open spec fn wf(self) -> bool {
        self.start < self.end
    }

    /// Whether `id` falls inside this range.
    pub fn contains(&self, id: u16) -> (r: bool)
        ensures
            r == self.contains_spec(id as int),
    {
        self.start <= id && id < self.end
    }
}

/// Computes the transaction-id range of worker `i` among `thread_count`
/// workers: `[i * b, (i + 1) * b)` with `b = 65535 / thread_count`.
pub fn calculate_id_range(thread_count: u16, i: u16) -> (r: IdRange)
    requires
        valid_worker(thread_count as int, i as int),
    ensures
        r.start as int == range_bounds(thread_count as int, i as int).0,
        r.end as int == range_bounds(thread_count as int, i as int).1,
        r.wf(),
{
    let bucket: u16 = ID_SPACE / thread_count;
    proof {
        lemma_bucket_fits(thread_count as int, i as int);
    }
    IdRange { start: i * bucket, end: (i + 1) * bucket }
}

proof fn lemma_bucket_fits(n: int, i: int)
    requires
        valid_worker(n, i),
    ensures
        bucket_size(n) >= 257,
        (i + 1) * bucket_size(n) <= ID_SPACE,
        i * bucket_size(n) < (i + 1) * bucket_size(n),
{
    let b = bucket_size(n);
    assert(b >= 257) by (nonlinear_arith)
        requires b == 65535int / n, 1 <= n <= 255;
    assert(n * b <= 65535) by (nonlinear_arith)
        requires b == 65535int / n, 1 <= n;
    assert((i + 1) * b <= n * b) by (nonlinear_arith)
        requires i + 1 <= n, b >= 0;
    assert(i * b < (i + 1) * b) by (nonlinear_arith)
        requires b > 0;
}

/// The ranges of two distinct workers of one relay share no id.
pub proof fn lemma_ranges_disjoint(n: int, i: int, j: int, id: int)
    requires
        valid_worker(n, i),
        valid_worker(n, j),
        i != j,
    ensures
        !(range_bounds(n, i).0 <= id < range_bounds(n, i).1
            && range_bounds(n, j).0 <= id < range_bounds(n, j).1),
{
    let b = bucket_size(n);
    lemma_bucket_fits(n, i);
    if i < j {
        assert((i + 1) * b <= j * b) by (nonlinear_arith)
            requires i + 1 <= j, b >= 0;
    } else {
        assert((j + 1) * b <= i * b) by (nonlinear_arith)
            requires j + 1 <= i, b >= 0;
    }
}

/// Every range lies inside the id space, and the ranges of all workers
/// together cover every id below `n * (65535 / n)`.
pub proof fn lemma_ranges_cover(n: int, id: int)
    requires
        MIN_WORKERS <= n <= MAX_WORKERS,
        0 <= id < n * bucket_size(n),
    ensures
        valid_worker(n, id / bucket_size(n)),
        range_bounds(n, id / bucket_size(n)).0 <= id < range_bounds(n, id / bucket_size(n)).1,
{
    let b = bucket_size(n);
    lemma_bucket_fits(n, 0);
    let w = id / b;
    assert(w * b <= id < (w + 1) * b) by (nonlinear_arith)
        requires w == id / b, b > 0, id >= 0;
    assert(0 <= w < n) by (nonlinear_arith)
        requires w == id / b, b > 0, 0 <= id < n * b;
}

} // verus!
