//! The bookkeeping of the syscall pool: a bounded set of threads, dedicated to
//! blocking syscalls, that take jobs from one queue in the order of submission.
//!
//! The threads themselves are the host's. It keeps one [`Pool`] under a lock
//! and tells it what its threads do.
use std::collections::VecDeque;
use vstd::prelude::*;
use crate::text::{number, parse_number};

verus! {

/// Most threads that the formula gives a pool.
pub const MAX_FORMULA_THREADS: usize = 16;

/// Most threads that an override gives a pool.
pub const MAX_OVERRIDE_THREADS: usize = 128;

/// The thread cap that the formula gives for a number of cores.
pub open spec fn formula_threads(cores: Option<usize>) -> int {
    let cores: int = match cores {
        Some(cores) => cores as int,
        None => 2,
    };
    if 2 * cores < MAX_FORMULA_THREADS {
        2 * cores
    } else {
        MAX_FORMULA_THREADS as int
    }
}

/// The thread cap for a number of cores: twice as many, and at most
/// [`MAX_FORMULA_THREADS`]. `None` stands for a number that is not available.
pub fn default_max_threads(cores: Option<usize>) -> (r: usize)
    ensures
        r == formula_threads(cores),
{
    let cores: usize = match cores {
        Some(cores) => cores,
        None => 2,
    };
    if cores < MAX_FORMULA_THREADS / 2 {
        2 * cores
    } else {
        MAX_FORMULA_THREADS
    }
}

/// The override of the thread cap that a `LORE_IO_POOL_THREADS` value asks for,
/// if it can be used.
pub open spec fn usable_override(value: Seq<char>) -> Option<nat> {
    match number(value) {
        Some(threads) if 1 <= threads <= MAX_OVERRIDE_THREADS => Some(threads),
        _ => None,
    }
}

/// The thread cap: the override where there is one that can be used, and else
/// what the formula gives. `None` stands for a `LORE_IO_POOL_THREADS` that is not
/// set.
pub open spec fn thread_cap(value: Option<&str>, cores: Option<usize>) -> int {
    match value {
        Some(value) => match usable_override(value@) {
            Some(threads) => threads as int,
            None => formula_threads(cores),
        },
        None => formula_threads(cores),
    }
}

/// Whether an override is given that cannot be used, and so is to be reported.
pub open spec fn is_unusable(value: Option<&str>) -> bool {
    value matches Some(value) && usable_override(value@) is None
}

/// The thread cap, and whether an override was given that cannot be used and is
/// to be reported.
///
/// `value` is that of `LORE_IO_POOL_THREADS`: `None` when it is not set. A value
/// that is not text comes with U+FFFD in place of what is not text, which is no
/// number.
pub fn max_threads(value: Option<&str>, cores: Option<usize>) -> (r: (usize, bool))
    ensures
        r.0 == thread_cap(value, cores),
        r.1 == is_unusable(value),
{
    match value {
        Some(value) => {
            if let Some(threads) = parse_number(value) {
                if 1 <= threads && threads <= MAX_OVERRIDE_THREADS {
                    return (threads, false);
                }
            }
            (default_max_threads(cores), true)
        },
        None => (default_max_threads(cores), false),
    }
}

/// A snapshot of a pool.
#[derive(Clone, Copy, Debug, PartialEq, Eq, Structural)]
pub struct PoolStats {
    /// Jobs that no thread has taken yet.
    pub queued: usize,
    /// Jobs that a thread is running.
    pub executing: usize,
    /// Live threads.
    pub threads: usize,
    /// Most threads that may live at a time.
    pub max_threads: usize,
    /// Most threads that have lived at a time.
    pub threads_high_water: usize,
    /// Most jobs that have been queued at a time.
    pub queue_high_water: usize,
}

/// The state of a syscall pool with jobs of type `J`.
pub struct Pool<J> {
    queue: VecDeque<J>,
    executing: usize,
    idle: usize,
    threads: usize,
    max_threads: usize,
    threads_high_water: usize,
    queue_high_water: usize,
}

/// The state of a [`Pool`].
#[verifier::ext_equal]
pub struct PoolView<J> {
    /// Jobs that no thread has taken yet, first come first.
    pub queue: Seq<J>,
    /// Jobs that a thread is running.
    pub executing: nat,
    /// Threads that wait for a job.
    pub idle: nat,
    /// Live threads.
    pub threads: nat,
    /// Most threads that may live at a time.
    pub max_threads: nat,
    /// Most threads that have lived at a time.
    pub threads_high_water: nat,
    /// Most jobs that have been queued at a time.
    pub queue_high_water: nat,
}

/// The larger of two numbers.
pub open spec fn larger(a: nat, b: nat) -> nat {
    if a < b {
        b
    } else {
        a
    }
}

impl<J> PoolView<J> {
    /// What holds of every pool: each thread runs a job, waits for one or is in
    /// between, neither the cap nor a high-water mark is ever exceeded, the cap is
    /// one that a machine or an override can give, and no job is queued without a
    /// thread to take it.
    pub open spec fn valid(self) -> bool {
        &&& self.executing + self.idle <= self.threads
        &&& self.threads <= self.threads_high_water
        &&& self.threads_high_water <= self.max_threads
        &&& 1 <= self.max_threads <= MAX_OVERRIDE_THREADS
        &&& self.queue.len() <= self.queue_high_water
        &&& self.queue.len() > 0 ==> self.threads > 0
    }

    /// A pool that no job has come to.
    pub open spec fn fresh(max_threads: nat) -> PoolView<J> {
        PoolView {
            queue: Seq::empty(),
            executing: 0,
            idle: 0,
            threads: 0,
            max_threads,
            threads_high_water: 0,
            queue_high_water: 0,
        }
    }

    /// Whether a submission needs a thread, and may have it.
    pub open spec fn spawns(self) -> bool {
        self.idle == 0 && self.threads < self.max_threads
    }

    /// The pool after a submission.
    pub open spec fn submitted(self, job: J) -> PoolView<J> {
        let threads = if self.spawns() {
            self.threads + 1
        } else {
            self.threads
        };
        PoolView {
            queue: self.queue.push(job),
            threads,
            threads_high_water: larger(self.threads_high_water, threads),
            queue_high_water: larger(self.queue_high_water, self.queue.len() + 1),
            ..self
        }
    }

    /// Whether a thread that stops waiting exits.
    pub open spec fn exits(self, timed_out: bool) -> bool {
        self.idle > 0 && timed_out && self.queue.len() == 0
    }

    /// The pool after a thread stopped waiting.
    pub open spec fn woken(self, timed_out: bool) -> PoolView<J> {
        if self.idle == 0 {
            self
        } else if self.exits(timed_out) {
            PoolView {
                idle: (self.idle - 1) as nat,
                threads: (self.threads - 1) as nat,
                ..self
            }
        } else {
            PoolView { idle: (self.idle - 1) as nat, ..self }
        }
    }

    /// Whether a thread that neither runs a job nor waits for one can take one.
    pub open spec fn can_take(self) -> bool {
        self.queue.len() > 0 && self.executing + self.idle < self.threads
    }
}

impl<J> View for Pool<J> {
    type V = PoolView<J>;

    closed spec fn view(&self) -> PoolView<J> {
        PoolView {
            queue: self.queue@,
            executing: self.executing as nat,
            idle: self.idle as nat,
            threads: self.threads as nat,
            max_threads: self.max_threads as nat,
            threads_high_water: self.threads_high_water as nat,
            queue_high_water: self.queue_high_water as nat,
        }
    }
}

impl<J> Pool<J> {
    #[verifier::type_invariant]
    spec fn is_valid(self) -> bool {
        self@.valid()
    }

    /// A pool that no job has come to, with the thread cap that [`max_threads`]
    /// gives, and whether an override was given that cannot be used and is to be
    /// reported. A machine has a core, if it says how many it has.
    pub fn new(value: Option<&str>, cores: Option<usize>) -> (r: (Pool<J>, bool))
        requires
            cores != Some(0usize),
        ensures
            r.0@ == PoolView::<J>::fresh(thread_cap(value, cores) as nat),
            r.1 == is_unusable(value),
    {
        proof {
            cap_is_in_range(value, cores);
        }
        let (max_threads, unusable) = max_threads(value, cores);
        let pool = Pool {
            queue: VecDeque::new(),
            executing: 0,
            idle: 0,
            threads: 0,
            max_threads,
            threads_high_water: 0,
            queue_high_water: 0,
        };
        (pool, unusable)
    }

    /// Queues a job. The result says whether a thread is to be spawned: one is
    /// when no thread is idle and the cap is not reached.
    pub fn submit(&mut self, job: J) -> (spawn: bool)
        requires
            old(self)@.queue.len() < usize::MAX,
        ensures
            spawn == old(self)@.spawns(),
            final(self)@ == old(self)@.submitted(job),
    {
        proof {
            use_type_invariant(&*self);
        }
        let spawn = self.idle == 0 && self.threads < self.max_threads;
        let queued: usize = self.queue.len() + 1;
        if queued > self.queue_high_water {
            self.queue_high_water = queued;
        }
        if spawn {
            let threads: usize = self.threads + 1;
            if threads > self.threads_high_water {
                self.threads_high_water = threads;
            }
            self.threads = threads;
        }
        let mut queue: VecDeque<J> = VecDeque::new();
        std::mem::swap(&mut queue, &mut self.queue);
        queue.push_back(job);
        self.queue = queue;
        spawn
    }

    /// Takes the job that has waited longest, for a thread that neither runs a
    /// job nor waits for one. `None`, and no change, when there is no such job
    /// or no such thread.
    pub fn take(&mut self) -> (r: Option<J>)
        ensures
            if old(self)@.can_take() {
                &&& r == Some(old(self)@.queue[0])
                &&& final(self)@ == (PoolView {
                    queue: old(self)@.queue.skip(1),
                    executing: old(self)@.executing + 1,
                    ..old(self)@
                })
            } else {
                r is None && final(self)@ == old(self)@
            },
    {
        proof {
            use_type_invariant(&*self);
        }
        if self.queue.len() == 0 || self.executing + self.idle >= self.threads {
            return None;
        }
        let mut queue: VecDeque<J> = VecDeque::new();
        std::mem::swap(&mut queue, &mut self.queue);
        let job = queue.pop_front();
        self.queue = queue;
        self.executing = self.executing + 1;
        assert(self@.queue =~= old(self)@.queue.skip(1));
        job
    }

    /// A thread has run its job. `false`, and no change, when none is running one.
    pub fn finish(&mut self) -> (r: bool)
        ensures
            r == (old(self)@.executing > 0),
            final(self)@ == if r {
                PoolView { executing: (old(self)@.executing - 1) as nat, ..old(self)@ }
            } else {
                old(self)@
            },
    {
        proof {
            use_type_invariant(&*self);
        }
        if self.executing == 0 {
            return false;
        }
        self.executing = self.executing - 1;
        true
    }

    /// A thread waits for a job. `false`, and no change, when every thread runs
    /// a job or waits already.
    pub fn park(&mut self) -> (r: bool)
        ensures
            r == (old(self)@.executing + old(self)@.idle < old(self)@.threads),
            final(self)@ == if r {
                PoolView { idle: old(self)@.idle + 1, ..old(self)@ }
            } else {
                old(self)@
            },
    {
        proof {
            use_type_invariant(&*self);
        }
        if self.executing + self.idle >= self.threads {
            return false;
        }
        self.idle = self.idle + 1;
        true
    }

    /// A thread stops waiting for a job, because one came or because its wait
    /// timed out. The result says whether it exits: it does when its wait timed
    /// out and no job is queued. `false`, and no change, when no thread is waiting.
    pub fn wake(&mut self, timed_out: bool) -> (exits: bool)
        ensures
            exits == old(self)@.exits(timed_out),
            final(self)@ == old(self)@.woken(timed_out),
    {
        proof {
            use_type_invariant(&*self);
        }
        if self.idle == 0 {
            return false;
        }
        self.idle = self.idle - 1;
        let exits = timed_out && self.queue.len() == 0;
        if exits {
            self.threads = self.threads - 1;
        }
        exits
    }
}

/// A snapshot of a pool, all of one moment.
///
/// The high-water marks say whether the cap is ever reached, and a deep queue
/// alongside idle threads says that the cap is not what limits the work.
pub fn pool_stats<J>(pool: &Pool<J>) -> (r: PoolStats)
    ensures
        r.queued == pool@.queue.len(),
        r.executing == pool@.executing,
        r.threads == pool@.threads,
        r.max_threads == pool@.max_threads,
        r.threads_high_water == pool@.threads_high_water,
        r.queue_high_water == pool@.queue_high_water,
        r.executing <= r.threads <= r.threads_high_water <= r.max_threads,
        1 <= r.max_threads <= MAX_OVERRIDE_THREADS,
        r.queued <= r.queue_high_water,
        r.queued > 0 ==> r.threads > 0,
{
    proof {
        use_type_invariant(pool);
    }
    PoolStats {
        queued: pool.queue.len(),
        executing: pool.executing,
        threads: pool.threads,
        max_threads: pool.max_threads,
        threads_high_water: pool.threads_high_water,
        queue_high_water: pool.queue_high_water,
    }
}

/// On a machine with a core, every pool may have a thread, and none may have
/// more than [`MAX_OVERRIDE_THREADS`].
pub proof fn cap_is_in_range(value: Option<&str>, cores: Option<usize>)
    requires
        cores != Some(0usize),
    ensures
        1 <= thread_cap(value, cores) <= MAX_OVERRIDE_THREADS,
{
}

/// A submission keeps a pool within its cap, lowers no high-water mark, and
/// leaves the job a thread to run on.
pub proof fn submission_keeps_bounds<J>(pool: PoolView<J>, job: J)
    requires
        pool.valid(),
    ensures
        pool.submitted(job).valid(),
        pool.submitted(job).max_threads == pool.max_threads,
        pool.submitted(job).threads_high_water >= pool.threads_high_water,
        pool.submitted(job).queue_high_water >= pool.queue_high_water,
        pool.submitted(job).threads > 0,
{
}

/// No thread exits while a job is queued, whether or not its wait timed out, and a
/// thread that was waiting and does not exit can then take the job.
pub proof fn queued_job_keeps_its_threads<J>(pool: PoolView<J>, timed_out: bool)
    requires
        pool.valid(),
        pool.queue.len() > 0,
    ensures
        !pool.exits(timed_out),
        pool.woken(timed_out).threads == pool.threads,
        pool.idle > 0 ==> pool.woken(timed_out).can_take(),
{
}

/// Jobs come out in the order of submission: a submission is behind every job
/// that is queued already.
pub proof fn queue_is_first_in_first_out<J>(pool: PoolView<J>, job: J)
    ensures
        pool.queue.len() == 0 ==> pool.submitted(job).queue == seq![job],
        pool.queue.len() > 0 ==> {
            &&& pool.submitted(job).queue[0] == pool.queue[0]
            &&& pool.submitted(job).queue.skip(1) == pool.queue.skip(1).push(job)
        },
{
    if pool.queue.len() == 0 {
        assert(pool.submitted(job).queue =~= seq![job]);
    } else {
        assert(pool.submitted(job).queue.skip(1) =~= pool.queue.skip(1).push(job));
    }
}

} // verus!
