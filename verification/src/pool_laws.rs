//! What the operations of a pool come to, field by field.
use vstd::prelude::*;
use crate::pool::{
    default_max_threads, max_threads, pool_stats, thread_cap, Pool, PoolStats, PoolView,
};
use crate::text::number;

verus! {

/// The thread cap is twice the cores, but never more than sixteen; two cores count
/// where the number is not available.
pub proof fn cap_is_twice_the_cores(cores: Option<usize>, r: usize)
    requires
        call_ensures(default_max_threads, (cores,), r),
    ensures
        r <= 16,
        cores matches Some(cores) ==> (r == 2 * cores || r == 16 && 2 * cores > 16),
        cores is None ==> r == 2 * 2,
{
}

/// An override is taken exactly where it is a number from 1 to 128. One that is not
/// taken is reported, and then, as without one, the cap is that of the machine.
pub proof fn override_is_taken_or_reported(
    value: Option<&str>,
    cores: Option<usize>,
    machine: usize,
    r: (usize, bool),
)
    requires
        call_ensures(default_max_threads, (cores,), machine),
        call_ensures(max_threads, (value, cores), r),
    ensures
        value is None ==> r.0 == machine && !r.1,
        value matches Some(value) ==> match number(value@) {
            Some(n) if n >= 1 && n <= 128 => r.0 == n && !r.1,
            _ => r.0 == machine && r.1,
        },
{
}

/// A new pool has the cap of its override or its machine, and has done nothing.
pub proof fn new_pool_has_done_nothing<J>(
    value: Option<&str>,
    cores: Option<usize>,
    cap: (usize, bool),
    r: (Pool<J>, bool),
)
    requires
        cores != Some(0usize),
        call_ensures(max_threads, (value, cores), cap),
        call_ensures(Pool::<J>::new, (value, cores), r),
    ensures
        r.0@.queue.len() == 0,
        r.0@.executing == 0,
        r.0@.idle == 0,
        r.0@.threads == 0,
        r.0@.threads_high_water == 0,
        r.0@.queue_high_water == 0,
        r.0@.max_threads == cap.0,
        r.1 == cap.1,
        1 <= r.0@.max_threads <= 128,
{
    crate::pool::cap_is_in_range(value, cores);
}

/// A submission to a pool without an idle thread and below its cap adds a thread, and
/// no other submission does. It puts its job behind every other one, raises a
/// high-water mark that is exceeded, and changes nothing else.
pub proof fn submission_adds_a_thread_where_it_needs_one<J>(
    pool: &mut Pool<J>,
    job: J,
    spawn: bool,
)
    requires
        call_ensures(Pool::<J>::submit, (pool, job), spawn),
    ensures
        spawn <==> old(pool)@.idle == 0 && old(pool)@.threads < old(pool)@.max_threads,
        final(pool)@.threads == old(pool)@.threads + if spawn {
            1int
        } else {
            0int
        },
        final(pool)@.queue.len() == old(pool)@.queue.len() + 1,
        final(pool)@.queue.last() == job,
        final(pool)@.queue.drop_last() == old(pool)@.queue,
        final(pool)@.threads_high_water == if final(pool)@.threads
            > old(pool)@.threads_high_water {
            final(pool)@.threads
        } else {
            old(pool)@.threads_high_water
        },
        final(pool)@.queue_high_water == if final(pool)@.queue.len()
            > old(pool)@.queue_high_water {
            final(pool)@.queue.len()
        } else {
            old(pool)@.queue_high_water
        },
        final(pool)@.executing == old(pool)@.executing,
        final(pool)@.idle == old(pool)@.idle,
        final(pool)@.max_threads == old(pool)@.max_threads,
{
    assert(final(pool)@.queue.drop_last() =~= old(pool)@.queue);
}

/// A job is taken exactly where one is queued and a thread neither runs a job nor
/// waits for one. It is the one that has waited longest.
pub proof fn longest_waiting_job_is_taken<J>(pool: &mut Pool<J>, r: Option<J>)
    requires
        call_ensures(Pool::<J>::take, (pool,), r),
    ensures
        r is Some <==> old(pool)@.queue.len() > 0 && old(pool)@.executing + old(pool)@.idle
            < old(pool)@.threads,
        r matches Some(job) ==> {
            &&& old(pool)@.queue == seq![job] + final(pool)@.queue
            &&& final(pool)@.executing == old(pool)@.executing + 1
        },
        r is None ==> {
            &&& final(pool)@.queue == old(pool)@.queue
            &&& final(pool)@.executing == old(pool)@.executing
        },
        final(pool)@.idle == old(pool)@.idle,
        final(pool)@.threads == old(pool)@.threads,
        final(pool)@.max_threads == old(pool)@.max_threads,
        final(pool)@.threads_high_water == old(pool)@.threads_high_water,
        final(pool)@.queue_high_water == old(pool)@.queue_high_water,
{
    if let Some(job) = r {
        assert(old(pool)@.queue =~= seq![job] + final(pool)@.queue);
    }
}

/// A job that is finished is one less that is running, if any is.
pub proof fn finishing_ends_one_job<J>(pool: &mut Pool<J>, r: bool)
    requires
        call_ensures(Pool::<J>::finish, (pool,), r),
    ensures
        r <==> old(pool)@.executing > 0,
        old(pool)@.executing == final(pool)@.executing + if r {
            1int
        } else {
            0int
        },
        final(pool)@.queue == old(pool)@.queue,
        final(pool)@.idle == old(pool)@.idle,
        final(pool)@.threads == old(pool)@.threads,
        final(pool)@.max_threads == old(pool)@.max_threads,
        final(pool)@.threads_high_water == old(pool)@.threads_high_water,
        final(pool)@.queue_high_water == old(pool)@.queue_high_water,
{
}

/// A thread that waits is one more that is idle, if there is one that neither runs a
/// job nor waits.
pub proof fn parking_idles_one_thread<J>(pool: &mut Pool<J>, r: bool)
    requires
        call_ensures(Pool::<J>::park, (pool,), r),
    ensures
        r <==> old(pool)@.executing + old(pool)@.idle < old(pool)@.threads,
        final(pool)@.idle == old(pool)@.idle + if r {
            1int
        } else {
            0int
        },
        final(pool)@.queue == old(pool)@.queue,
        final(pool)@.executing == old(pool)@.executing,
        final(pool)@.threads == old(pool)@.threads,
        final(pool)@.max_threads == old(pool)@.max_threads,
        final(pool)@.threads_high_water == old(pool)@.threads_high_water,
        final(pool)@.queue_high_water == old(pool)@.queue_high_water,
{
}

/// A thread that stops waiting is one less that is idle, if any is. It exits exactly
/// where its wait timed out and no job is queued.
pub proof fn waking_exits_only_from_an_empty_queue<J>(
    pool: &mut Pool<J>,
    timed_out: bool,
    exits: bool,
)
    requires
        call_ensures(Pool::<J>::wake, (pool, timed_out), exits),
    ensures
        exits <==> old(pool)@.idle > 0 && timed_out && old(pool)@.queue.len() == 0,
        old(pool)@.idle > 0 ==> final(pool)@.idle == old(pool)@.idle - 1,
        old(pool)@.idle == 0 ==> final(pool)@.idle == 0,
        exits && old(pool)@.threads > 0 ==> final(pool)@.threads == old(pool)@.threads - 1,
        !exits ==> final(pool)@.threads == old(pool)@.threads,
        final(pool)@.queue == old(pool)@.queue,
        final(pool)@.executing == old(pool)@.executing,
        final(pool)@.max_threads == old(pool)@.max_threads,
        final(pool)@.threads_high_water == old(pool)@.threads_high_water,
        final(pool)@.queue_high_water == old(pool)@.queue_high_water,
{
}

/// A snapshot counts what the pool holds at that moment.
pub proof fn snapshot_counts_what_is_there<J>(pool: &Pool<J>, r: PoolStats)
    requires
        call_ensures(pool_stats::<J>, (pool,), r),
    ensures
        r.queued == pool@.queue.len(),
        r.executing == pool@.executing,
        r.threads == pool@.threads,
        r.max_threads == pool@.max_threads,
        r.threads_high_water == pool@.threads_high_water,
        r.queue_high_water == pool@.queue_high_water,
        1 <= r.max_threads <= 128,
{
}

/// As many submissions to a new pool as its cap allows, one after the other, leave it
/// with a thread for each, and every further one leaves it at its cap. All jobs are
/// queued, in the order of submission.
pub proof fn submissions_fill_the_pool_up_to_its_cap<J>(
    value: Option<&str>,
    cores: Option<usize>,
    pools: Seq<PoolView<J>>,
    jobs: Seq<J>,
    k: int,
)
    requires
        cores != Some(0usize),
        pools.len() == jobs.len() + 1,
        pools[0] == PoolView::<J>::fresh(thread_cap(value, cores) as nat),
        forall|i: int| 0 <= i < jobs.len() ==> pools[i + 1] == (#[trigger] pools[i]).submitted(
            jobs[i],
        ),
        0 <= k <= jobs.len(),
    ensures
        pools[k].max_threads == thread_cap(value, cores),
        pools[k].threads == if k < pools[k].max_threads {
            k
        } else {
            pools[k].max_threads as int
        },
        pools[k].threads_high_water == pools[k].threads,
        pools[k].idle == 0,
        pools[k].executing == 0,
        pools[k].queue == jobs.take(k),
        pools[k].queue_high_water == k,
    decreases k,
{
    crate::pool::cap_is_in_range(value, cores);
    if k > 0 {
        submissions_fill_the_pool_up_to_its_cap(value, cores, pools, jobs, k - 1);
        assert(pools[k - 1 + 1] == pools[k - 1].submitted(jobs[k - 1]));
        assert(jobs.take(k) =~= jobs.take(k - 1).push(jobs[k - 1]));
    } else {
        assert(pools[0].queue =~= jobs.take(0));
    }
}

} // verus!
