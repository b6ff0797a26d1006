use vstd::prelude::*;

use crate::breaker::{deadline, BreakerModel, State};

verus! {

impl BreakerModel {
    /// The breaker after a run of calls that all failed, the i-th when the
    /// clock read `times[i]`.
    pub open spec fn after_failures(self, times: Seq<u64>) -> BreakerModel
        decreases times.len(),
    {
        if times.len() == 0 {
            self
        } else {
            let before = self.after_failures(times.drop_last());
            before.on_call(times.last()).on_failure(times.last())
        }
    }
}

/// While a closed breaker's count stays within its threshold, a run of
/// failed calls leaves it closed, every one of those calls runs the
/// operation, and each failure adds one to the count.
pub proof fn lemma_failures_within_threshold(b: BreakerModel, times: Seq<u64>)
    requires
        b.state == State::Closed,
        b.failure_count + times.len() <= b.failure_threshold,
    ensures
        forall|i: int|
            0 <= i <= times.len() ==> #[trigger] b.after_failures(times.take(i)) == (BreakerModel {
                failure_count: b.failure_count + i as nat,
                ..b
            }),
        forall|i: int| 0 <= i < times.len() ==> b.after_failures(times.take(i)).admits(times[i]),
        b.after_failures(times).state == State::Closed,
{
    assert forall|i: int| 0 <= i <= times.len() implies #[trigger] b.after_failures(times.take(i))
        == (BreakerModel { failure_count: b.failure_count + i as nat, ..b }) by {
        lemma_prefix_counted(b, times, i);
    }
    assert forall|i: int| 0 <= i < times.len() implies b.after_failures(times.take(i)).admits(
        times[i],
    ) by {
        lemma_prefix_counted(b, times, i);
    }
    lemma_prefix_counted(b, times, times.len() as int);
    assert(times.take(times.len() as int) =~= times);
}

proof fn lemma_prefix_counted(b: BreakerModel, times: Seq<u64>, i: int)
    requires
        b.state == State::Closed,
        b.failure_count + times.len() <= b.failure_threshold,
        0 <= i <= times.len(),
    ensures
        b.after_failures(times.take(i)) == (BreakerModel {
            failure_count: b.failure_count + i as nat,
            ..b
        }),
    decreases i,
{
    if i > 0 {
        lemma_prefix_counted(b, times, i - 1);
        assert(times.take(i).drop_last() =~= times.take(i - 1));
    }
}

/// The failure that lifts a closed breaker's count past its threshold opens
/// it until the timeout after that failure; every call before then is
/// refused and leaves the breaker as it is.
pub proof fn lemma_trip_on_threshold(b: BreakerModel, times: Seq<u64>)
    requires
        b.state == State::Closed,
        b.failure_count <= b.failure_threshold,
        b.failure_count + times.len() == b.failure_threshold + 1,
    ensures
        forall|i: int| 0 <= i < times.len() ==> b.after_failures(times.take(i)).admits(times[i]),
        b.after_failures(times).state == State::Open(deadline(times.last(), b.reset_timeout)),
        forall|later: u64|
            later < deadline(times.last(), b.reset_timeout) ==> {
                &&& !b.after_failures(times).admits(later)
                &&& #[trigger] b.after_failures(times).on_call(later) == b.after_failures(times)
            },
{
    let n = times.len() as int;
    lemma_failures_within_threshold(b, times.drop_last());
    assert forall|i: int| 0 <= i < n implies b.after_failures(times.take(i)).admits(times[i]) by {
        lemma_prefix_counted(b, times.drop_last(), i);
        assert(times.take(i) =~= times.drop_last().take(i));
    }
    assert(times.drop_last().take(n - 1) =~= times.drop_last());
}

/// Once an open breaker's timeout has run out, the next call is its one
/// probe: it runs the operation, and whatever its outcome the breaker leaves
/// the probing state. A success closes it; a failure recorded at `done`
/// opens it again and refuses every call until the timeout after `done`.
pub proof fn lemma_single_probe(b: BreakerModel, now: u64, done: u64)
    requires
        b.state matches State::Open(reset_at) && now >= reset_at,
        done >= now,
    ensures
        b.admits(now),
        b.on_call(now).state == State::HalfOpen,
        b.on_call(now).on_success().state == State::Closed,
        b.on_call(now).on_failure(done).state == State::Open(deadline(done, b.reset_timeout)),
        deadline(done, b.reset_timeout) >= done,
        forall|later: u64|
            later < deadline(done, b.reset_timeout) ==> !#[trigger] b.on_call(now).on_failure(
                done,
            ).admits(later),
{
}

/// A successful probe closes the breaker with its count cleared: it then
/// takes a whole new run of more than the threshold's failures to open it.
pub proof fn lemma_probe_success_resets(b: BreakerModel, now: u64, times: Seq<u64>)
    requires
        b.state matches State::Open(reset_at) && now >= reset_at,
    ensures
        b.on_call(now).on_success() == (BreakerModel {
            state: State::Closed,
            failure_count: 0,
            ..b
        }),
        times.len() <= b.failure_threshold ==> b.on_call(now).on_success().after_failures(
            times,
        ).state == State::Closed,
        times.len() == b.failure_threshold + 1 ==> b.on_call(now).on_success().after_failures(
            times,
        ).state == State::Open(deadline(times.last(), b.reset_timeout)),
{
    let c = b.on_call(now).on_success();
    if times.len() <= b.failure_threshold {
        lemma_failures_within_threshold(c, times);
    }
    if times.len() == b.failure_threshold + 1 {
        lemma_trip_on_threshold(c, times);
    }
}

/// A failed probe opens the breaker again with a reset instant strictly
/// later than the one it had, provided the timeout is not zero and the
/// failure is recorded before the clock's last instant.
pub proof fn lemma_failed_probe_reopens_later(b: BreakerModel, now: u64, done: u64)
    requires
        b.state matches State::Open(reset_at) && now >= reset_at,
        done >= now,
        b.reset_timeout > 0,
        done < u64::MAX,
    ensures
        b.on_call(now).on_failure(done).state matches State::Open(next) && b.state matches State::Open(
            prev,
        ) && next > prev,
{
}

} // verus!
