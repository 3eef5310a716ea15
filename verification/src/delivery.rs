//! What the fetcher hands to the queue over a run of iterations: every height
//! from the start on, none skipped, a batch repeated only after a failure.

use vstd::prelude::*;
use crate::checkpoint::checkpoints_never_decrease;
use crate::checkpoint::checkpoints_written;
use crate::checkpoint::never_back_an_interval;
use crate::fetcher::FetchFailure;
use crate::fetcher::FetcherView;
use crate::fetcher::SyncMode;
use crate::fetcher::CATCH_UP_BATCH;

verus! {

/// How one iteration of the fetcher went.
pub enum Iteration {
    /// The fetch of the batch failed: nothing was pushed.
    FetchFailed(FetchFailure),
    /// The batch was fetched and `accepted` of its blocks were pushed and
    /// accepted, in order; where that is less than the batch, the next push
    /// was refused.
    Pushed { accepted: nat },
}

impl FetcherView {
    /// The fetcher after `n` accepted pushes.
    pub open spec fn pushes(self, n: nat) -> FetcherView
        decreases n,
    {
        if n == 0 {
            self
        } else {
            self.pushes((n - 1) as nat).push(true)
        }
    }

    /// The number of blocks that the iteration hands to the queue.
    pub open spec fn delivered_count(self, iteration: Iteration) -> nat {
        match iteration {
            Iteration::FetchFailed(_) => 0,
            Iteration::Pushed { accepted } => if accepted < self.mode.batch() {
                accepted
            } else {
                self.mode.batch()
            },
        }
    }

    /// The fetcher after one iteration, from its beginning to its end.
    pub open spec fn iterate(self, iteration: Iteration) -> FetcherView {
        match iteration {
            Iteration::FetchFailed(failure) => self.begin().fetch_failed(failure).finish(),
            Iteration::Pushed { accepted } => if accepted < self.mode.batch() {
                self.begin().pushes(accepted).push(false).finish()
            } else {
                self.begin().pushes(self.mode.batch()).finish()
            },
        }
    }

    /// The heights that the iteration hands to the queue, in order: from the
    /// cursor on, as many as were accepted.
    pub open spec fn delivered(self, iteration: Iteration) -> Seq<int> {
        Seq::new(self.delivered_count(iteration), |i: int| self.cursor + i)
    }

    /// The fetcher after a run of iterations.
    pub open spec fn iterate_all(self, iterations: Seq<Iteration>) -> FetcherView
        decreases iterations.len(),
    {
        if iterations.len() == 0 {
            self
        } else {
            self.iterate_all(iterations.drop_last()).iterate(iterations.last())
        }
    }

    /// The heights handed to the queue over a run of iterations, in order.
    pub open spec fn delivered_all(self, iterations: Seq<Iteration>) -> Seq<int>
        decreases iterations.len(),
    {
        if iterations.len() == 0 {
            Seq::empty()
        } else {
            self.delivered_all(iterations.drop_last()) + self.iterate_all(
                iterations.drop_last(),
            ).delivered(iterations.last())
        }
    }
}

/// Accepted pushes change nothing but the failure count, which is 0 after the
/// first of them.
pub proof fn pushes_only_reset_failures(s: FetcherView, n: nat)
    ensures
        s.pushes(n).cursor == s.cursor,
        s.pushes(n).mode == s.mode,
        s.pushes(n).base_delay == s.base_delay,
        s.pushes(n).failures == if n == 0 {
            s.failures
        } else {
            0
        },
    decreases n,
{
    if n > 0 {
        pushes_only_reset_failures(s, (n - 1) as nat);
    }
}

/// An iteration moves the cursor past its batch exactly when the whole batch
/// was accepted, and then no failure is counted; else the cursor stays and a
/// failure is counted. Well-formedness is kept, and tip-follow mode is kept.
pub proof fn iteration_moves_cursor_on_success(s: FetcherView, iteration: Iteration)
    requires
        s.wf(),
    ensures
        s.iterate(iteration).wf(),
        s.mode == SyncMode::TipFollow ==> s.iterate(iteration).mode
            == SyncMode::TipFollow,
        s.delivered_count(iteration) == s.mode.batch() ==> s.iterate(iteration).cursor
            == s.cursor + s.mode.batch() && s.iterate(iteration).failures == 0,
        s.delivered_count(iteration) < s.mode.batch() ==> s.iterate(iteration).cursor == s.cursor
            && s.iterate(iteration).failures >= 1,
{
    match iteration {
        Iteration::FetchFailed(_) => {},
        Iteration::Pushed { accepted } => {
            if accepted < s.mode.batch() {
                pushes_only_reset_failures(s.begin(), accepted);
            } else {
                pushes_only_reset_failures(s.begin(), s.mode.batch());
            }
        },
    }
}

/// Over any run of iterations the fetcher hands out heights in this way: none
/// lies before the start; the first is the start; each is at most one more than
/// the one before it, so that no height is skipped; every height between the
/// start and the cursor was handed out, and the last one handed out is the
/// one before the cursor or a later one; and none lies a batch or more below
/// one that came before it.
pub proof fn delivery_skips_no_height(s: FetcherView, iterations: Seq<Iteration>)
    requires
        s.wf(),
    ensures
        s.iterate_all(iterations).wf(),
        s.cursor <= s.iterate_all(iterations).cursor,
        forall|k: int|
            0 <= k < s.delivered_all(iterations).len() ==> s.cursor <= #[trigger] s.delivered_all(
                iterations,
            )[k] < s.iterate_all(iterations).cursor + CATCH_UP_BATCH,
        s.delivered_all(iterations).len() > 0 ==> s.delivered_all(iterations)[0] == s.cursor,
        s.delivered_all(iterations).len() > 0 ==> s.iterate_all(iterations).cursor - 1
            <= s.delivered_all(iterations).last(),
        forall|k: int|
            0 <= k < s.delivered_all(iterations).len() - 1 ==> #[trigger] s.delivered_all(
                iterations,
            )[k + 1] <= s.delivered_all(iterations)[k] + 1,
        forall|h: int|
            s.cursor <= h < s.iterate_all(iterations).cursor ==> #[trigger] s.delivered_all(
                iterations,
            ).contains(h),
        forall|i: int, j: int|
            0 <= i < j < s.delivered_all(iterations).len() ==> s.delivered_all(iterations)[i]
                - CATCH_UP_BATCH < s.delivered_all(iterations)[j],
    decreases iterations.len(),
{
    if iterations.len() > 0 {
        let earlier = iterations.drop_last();
        let last = iterations.last();
        delivery_skips_no_height(s, earlier);
        let mid = s.iterate_all(earlier);
        iteration_moves_cursor_on_success(mid, last);
        let end = mid.iterate(last);
        let old = s.delivered_all(earlier);
        let add = mid.delivered(last);
        let all = s.delivered_all(iterations);
        assert(all == old + add);
        assert(end == s.iterate_all(iterations));
        assert(add.len() <= CATCH_UP_BATCH);
        assert(mid.cursor <= end.cursor);
        assert forall|k: int| 0 <= k < all.len() implies s.cursor <= #[trigger] all[k]
            < end.cursor + CATCH_UP_BATCH by {
            if k < old.len() {
                assert(all[k] == old[k]);
            } else {
                assert(all[k] == add[k - old.len()]);
            }
        }
        if all.len() > 0 {
            if add.len() > 0 {
                assert(all.last() == add[add.len() - 1]);
            } else {
                assert(all.last() == old.last());
            }
            if old.len() > 0 {
                assert(all[0] == old[0]);
            } else {
                assert(all[0] == add[0]);
                assert(mid.cursor == s.cursor) by {
                    if s.cursor < mid.cursor {
                        assert(old.contains(s.cursor as int));
                    }
                }
            }
        }
        assert forall|k: int| 0 <= k < all.len() - 1 implies #[trigger] all[k + 1] <= all[k]
            + 1 by {
            if k + 1 < old.len() {
                assert(all[k] == old[k] && all[k + 1] == old[k + 1]);
            } else if k < old.len() {
                assert(all[k] == old[k]);
                assert(all[k + 1] == add[0]);
                assert(add[0] == mid.cursor);
                assert(old[k] == old.last());
            } else {
                assert(all[k] == add[k - old.len()]);
                assert(all[k + 1] == add[k + 1 - old.len()]);
            }
        }
        assert forall|h: int| s.cursor <= h < end.cursor implies #[trigger] all.contains(h) by {
            if h < mid.cursor {
                assert(old.contains(h));
                let k = choose|k: int| 0 <= k < old.len() && old[k] == h;
                assert(all[k] == h);
            } else {
                let k = old.len() + (h - mid.cursor);
                assert(add[h - mid.cursor] == h);
                assert(all[k] == h);
            }
        }
        assert forall|i: int, j: int| 0 <= i < j < all.len() implies all[i] - CATCH_UP_BATCH
            < all[j] by {
            if j < old.len() {
                assert(all[i] == old[i] && all[j] == old[j]);
            } else if i < old.len() {
                assert(all[i] == old[i]);
                assert(all[j] == add[j - old.len()]);
            } else {
                assert(all[i] == add[i - old.len()]);
                assert(all[j] == add[j - old.len()]);
            }
        }
    }
}

/// The checkpoints written for the blocks that the fetcher hands out never
/// decrease, whatever run of iterations hands them out.
pub proof fn delivered_checkpoints_never_decrease(s: FetcherView, iterations: Seq<Iteration>)
    requires
        s.wf(),
    ensures
        never_back_an_interval(s.delivered_all(iterations)),
        forall|a: int, b: int|
            0 <= a <= b < checkpoints_written(s.delivered_all(iterations)).len()
                ==> checkpoints_written(s.delivered_all(iterations))[a] <= checkpoints_written(
                s.delivered_all(iterations),
            )[b],
{
    delivery_skips_no_height(s, iterations);
    checkpoints_never_decrease(s.delivered_all(iterations));
}

} // verus!
