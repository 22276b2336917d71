//! Sizing and timing of the per-frame animation work, and the worker pool
//! that runs it.
use vstd::prelude::*;
use rayon::iter::{IndexedParallelIterator, IntoParallelIterator, ParallelIterator};

verus! {

/// Logical cores left to the UI event loop and the audio callback.
pub const RESERVED_CORES: usize = 2;

/// Largest time step, in microseconds, that one frame may apply to a pose.
pub const MAX_STEP_MICROS: u64 = 33_000;

/// `max(1, logical_cores - 2)`.
pub open spec fn spec_worker_count(logical_cores: int) -> int {
    if logical_cores - RESERVED_CORES >= 1 {
        logical_cores - RESERVED_CORES
    } else {
        1
    }
}

/// `min(elapsed, MAX_STEP_MICROS)`.
pub open spec fn spec_clamp_step(elapsed_micros: int) -> int {
    if elapsed_micros > MAX_STEP_MICROS {
        MAX_STEP_MICROS as int
    } else {
        elapsed_micros
    }
}

/// Number of pool workers for a machine with `logical_cores` logical cores.
pub fn worker_count(logical_cores: usize) -> (r: usize)
    ensures
        r == spec_worker_count(logical_cores as int),
        r >= 1,
{
    if logical_cores > RESERVED_CORES + 1 {
        logical_cores - RESERVED_CORES
    } else {
        1
    }
}

/// The time step actually applied for a measured frame time.
pub fn clamp_step(elapsed_micros: u64) -> (r: u64)
    ensures
        r == spec_clamp_step(elapsed_micros as int),
        elapsed_micros > MAX_STEP_MICROS ==> r == MAX_STEP_MICROS,
        r <= MAX_STEP_MICROS,
{
    if elapsed_micros > MAX_STEP_MICROS {
        MAX_STEP_MICROS
    } else {
        elapsed_micros
    }
}

/// rayon's `ThreadPool`, carried opaque in `Scheduler`.
#[verifier::external_type_specification]
#[verifier::external_body]
pub struct ExThreadPool(rayon::ThreadPool);

/// rayon's `ThreadPoolBuildError`, which `Scheduler::new` maps to its own error.
#[verifier::external_type_specification]
#[verifier::external_body]
pub struct ExThreadPoolBuildError(rayon::ThreadPoolBuildError);

/// Why a scheduler could not be made.
#[derive(Debug, PartialEq, Eq, Structural)]
pub enum SchedulerError {
    /// The worker threads could not be started.
    PoolUnavailable,
}

/// A fixed-size pool that runs the per-frame pose updates, sized so that two
/// logical cores stay free for the UI and audio threads.
pub struct Scheduler {
    pool: rayon::ThreadPool,
    workers: usize,
}

/// Relies on rayon's `ThreadPoolBuilder::new`, `num_threads` and `build`:
/// a pool asked for `threads` workers, or the error that starting them gave.
#[verifier::external_body]
fn build_pool(threads: usize) -> Result<rayon::ThreadPool, rayon::ThreadPoolBuildError> {
    rayon::ThreadPoolBuilder::new().num_threads(threads).build()
}

/// Relies on rayon's `ThreadPool::install`: `op` runs once on the pool, the
/// caller blocks until it returns, and its value is handed back.
#[verifier::external_body]
fn install_on<OP, R>(pool: &rayon::ThreadPool, op: OP) -> (r: R) where
    OP: FnOnce() -> R + Send,
    R: Send,

    requires
        op.requires(()),
    ensures
        op.ensures((), r),
{
    pool.install(op)
}

/// `after` holds, slot by slot, what `f` makes of each character in `before`
/// at its index; empty slots stay empty.
pub open spec fn advanced<C, F: Fn(usize, C) -> C>(
    before: Seq<Option<C>>,
    after: Seq<Option<C>>,
    f: F,
) -> bool {
    &&& after.len() == before.len()
    &&& forall|i: int|
        0 <= i < before.len() ==> match #[trigger] before[i] {
            None => after[i] is None,
            Some(c) => after[i] matches Some(d) && f.ensures((i as usize, c), d),
        }
}

/// Relies on rayon's parallel iterator over a `Vec` (`into_par_iter`,
/// `enumerate`, `map`, `collect`): each element is handed to `g` once, with
/// its index, and `collect` keeps the order of an indexed iterator.
#[verifier::external_body]
fn par_map_indexed<T: Send, G: Fn(usize, T) -> T + Sync>(items: Vec<T>, g: &G) -> (r: Vec<T>)
    requires
        forall|i: usize, t: T| g.requires((i, t)),
    ensures
        r@.len() == items@.len(),
        forall|i: int| 0 <= i < items@.len() ==> g.ensures((i as usize, items@[i]), #[trigger] r@[i]),
{
    items.into_par_iter().enumerate().map(|(i, t)| g(i, t)).collect()
}

/// Maps the slots through `f` one after another on the calling thread: the
/// same result as `Scheduler::map_slots`, for when no pool could be started.
pub fn map_slots_here<C, F: Fn(usize, C) -> C>(items: Vec<Option<C>>, f: &F) -> (r: Vec<Option<C>>)
    requires
        forall|i: usize, c: C| f.requires((i, c)),
    ensures
        advanced(items@, r@, *f),
{
    let ghost before = items@;
    let mut items = items;
    let mut i: usize = 0;
    while i < items.len()
        invariant
            items@.len() == before.len(),
            i <= items.len(),
            forall|i: usize, c: C| f.requires((i, c)),
            forall|j: int| i <= j < before.len() ==> items@[j] == before[j],
            forall|j: int|
                0 <= j < i ==> match #[trigger] before[j] {
                    None => items@[j] is None,
                    Some(c) => items@[j] matches Some(d) && f.ensures((j as usize, c), d),
                },
        decreases items.len() - i,
    {
        let mut taken: Option<C> = None;
        items.set_and_swap(i, &mut taken);
        match taken {
            Some(c) => {
                let d = f(i, c);
                items.set(i, Some(d));
            },
            None => {},
        }
        i += 1;
    }
    items
}

/// Two runs of the same deterministic update over the same slots end alike,
/// whatever pool, worker count or order produced them.
pub proof fn lemma_advanced_unique<C, F: Fn(usize, C) -> C>(
    before: Seq<Option<C>>,
    first: Seq<Option<C>>,
    second: Seq<Option<C>>,
    f: F,
)
    requires
        advanced(before, first, f),
        advanced(before, second, f),
        forall|j: usize, c: C, d1: C, d2: C|
            f.ensures((j, c), d1) && f.ensures((j, c), d2) ==> d1 == d2,
    ensures
        first == second,
{
    assert forall|i: int| 0 <= i < before.len() implies first[i] == second[i] by {
        match before[i] {
            Some(c) => {
                let d1 = first[i]->Some_0;
                let d2 = second[i]->Some_0;
                assert(f.ensures((i as usize, c), d1));
                assert(f.ensures((i as usize, c), d2));
            },
            None => {},
        }
    }
    assert(first =~= second);
}

/// Updating the slots in parallel gives each slot what updating it alone
/// gives: where the update is a function of the slot's index and character,
/// a populated slot ends holding exactly the result of that update, whatever
/// the other slots hold and in whatever order the workers ran.
pub proof fn lemma_parallel_matches_alone<C, F: Fn(usize, C) -> C>(
    before: Seq<Option<C>>,
    after: Seq<Option<C>>,
    f: F,
    i: int,
    alone: C,
)
    requires
        advanced(before, after, f),
        forall|j: usize, c: C, d1: C, d2: C|
            f.ensures((j, c), d1) && f.ensures((j, c), d2) ==> d1 == d2,
        0 <= i < before.len(),
        before[i] matches Some(c) && f.ensures((i as usize, c), alone),
    ensures
        after[i] == Some(alone),
{
    let c = before[i]->Some_0;
    let d = after[i]->Some_0;
    assert(f.ensures((i as usize, c), d));
}

impl Scheduler {
    pub closed spec fn spec_workers(&self) -> int {
        self.workers as int
    }

    /// A scheduler for a machine with `logical_cores` logical cores, with
    /// `max(1, logical_cores - 2)` workers.
    pub fn new(logical_cores: usize) -> (r: Result<Scheduler, SchedulerError>)
        ensures
            r matches Ok(s) ==> s.spec_workers() == spec_worker_count(logical_cores as int),
    {
        let workers = worker_count(logical_cores);
        match build_pool(workers) {
            Ok(pool) => Ok(Scheduler { pool, workers }),
            Err(_) => Err(SchedulerError::PoolUnavailable),
        }
    }

    /// The number of workers the pool was sized with.
    pub fn workers(&self) -> (r: usize)
        ensures
            r == self.spec_workers(),
    {
        self.workers
    }

    /// Runs `op` on the pool and waits for it (fork-join): when this returns,
    /// every piece of work that `op` forked has finished.
    pub fn run_parallel<OP, R>(&self, op: OP) -> (r: R) where
        OP: FnOnce() -> R + Send,
        R: Send,

        requires
            op.requires(()),
        ensures
            op.ensures((), r),
    {
        install_on(&self.pool, op)
    }

    /// Maps every populated slot through `f` on the pool, all slots at once,
    /// and waits until each is done.
    pub fn map_slots<C: Send, F: Fn(usize, C) -> C + Sync>(
        &self,
        items: Vec<Option<C>>,
        f: &F,
    ) -> (r: Vec<Option<C>>)
        requires
            forall|i: usize, c: C| f.requires((i, c)),
        ensures
            advanced(items@, r@, *f),
    {
        let ghost before = items@;
        let slot_step = |i: usize, s: Option<C>| -> (out: Option<C>)
            requires
                forall|i: usize, c: C| f.requires((i, c)),
            ensures
                match s {
                    None => out is None,
                    Some(c) => out matches Some(d) && f.ensures((i, c), d),
                },
            {
                match s {
                    Some(c) => Some(f(i, c)),
                    None => None,
                }
            };
        let job = move || -> (out: Vec<Option<C>>)
            requires
                forall|i: usize, c: C| f.requires((i, c)),
            ensures
                advanced(before, out@, *f),
            {
                let out = par_map_indexed(items, &slot_step);
                assert forall|i: int| 0 <= i < before.len() implies match #[trigger] before[i] {
                    None => out@[i] is None,
                    Some(c) => out@[i] matches Some(d) && f.ensures((i as usize, c), d),
                } by {
                    assert(slot_step.ensures((i as usize, before[i]), out@[i]));
                }
                out
            };
        install_on(&self.pool, job)
    }
}

} // verus!
