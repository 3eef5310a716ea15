//! The block fetcher's decisions: which heights to ask for, how a fetch or a
//! push changes the fetcher, when the cursor moves and how long to pause.
//!
//! The fetch itself, the queue and the pause are the caller's; between them
//! the caller asks a `Fetcher` what to do and tells it what happened.

use vstd::prelude::*;
use vstd::arithmetic::power2::pow2;
use crate::backoff::MAX_BACKOFF_EXPONENT;
use crate::backoff::backoff_delay;
use crate::backoff::backoff_grows_to_cap;
use crate::backoff::capped_failures;
use crate::backoff::delay_ms;
use crate::text::contains_text;
use crate::text::text_contains;

verus! {

/// Blocks asked for at once while far behind the chain tip.
pub const CATCH_UP_BATCH: u32 = 5;

/// Blocks asked for at once when following the tip.
pub const TIP_FOLLOW_BATCH: u32 = 1;

/// Base delay in milliseconds while far behind the chain tip.
pub const CATCH_UP_DELAY_MS: u64 = 10;

/// Base delay in milliseconds when following the tip.
pub const TIP_FOLLOW_DELAY_MS: u64 = 5000;

/// How the fetcher paces itself.
#[derive(Clone, Copy, Debug, PartialEq, Eq, Structural)]
pub enum SyncMode {
    /// Far behind the tip: large batches, short pauses.
    CatchUp,
    /// At the tip: one block at a time, long pauses.
    TipFollow,
}

impl SyncMode {
    /// The number of heights one iteration asks for.
    pub open spec fn batch(self) -> nat {
        match self {
            SyncMode::CatchUp => CATCH_UP_BATCH as nat,
            SyncMode::TipFollow => TIP_FOLLOW_BATCH as nat,
        }
    }

    /// The base delay of one iteration, in milliseconds.
    pub open spec fn base_delay(self) -> nat {
        match self {
            SyncMode::CatchUp => CATCH_UP_DELAY_MS as nat,
            SyncMode::TipFollow => TIP_FOLLOW_DELAY_MS as nat,
        }
    }

    /// The number of heights one iteration asks for.
    pub fn batch_size(self) -> (n: u32)
        ensures
            n == self.batch(),
    {
        match self {
            SyncMode::CatchUp => CATCH_UP_BATCH,
            SyncMode::TipFollow => TIP_FOLLOW_BATCH,
        }
    }

    /// The base delay of one iteration, in milliseconds.
    pub fn base_delay_ms(self) -> (d: u64)
        ensures
            d == self.base_delay(),
    {
        match self {
            SyncMode::CatchUp => CATCH_UP_DELAY_MS,
            SyncMode::TipFollow => TIP_FOLLOW_DELAY_MS,
        }
    }
}

/// Why a fetch failed.
#[derive(Clone, Copy, Debug, PartialEq, Eq, Structural)]
pub enum FetchFailure {
    /// A requested height lies beyond the chain's current tip.
    TipExceeded,
    /// Any other failure of the source.
    Transient,
}

/// The words by which the source reports a height beyond the tip.
pub open spec fn tip_marker() -> Seq<char> {
    "must be less than or equal to the current blockchain height"@
}

/// Reads a fetch error's message: it reports a height beyond the tip exactly
/// when it holds the tip marker.
pub fn classify_fetch_error(message: &str) -> (failure: FetchFailure)
    ensures
        failure == (if contains_text(message@, tip_marker()) {
            FetchFailure::TipExceeded
        } else {
            FetchFailure::Transient
        }),
{
    if text_contains(message, "must be less than or equal to the current blockchain height") {
        FetchFailure::TipExceeded
    } else {
        FetchFailure::Transient
    }
}

/// The height at which fetching starts, given the height wanted: that height
/// where it is a height the fetcher can hold, else 1.
pub open spec fn start_cursor(start_height: int) -> nat {
    if 0 <= start_height <= u32::MAX {
        start_height as nat
    } else {
        1
    }
}

/// What a fetcher is, as plain values.
pub struct FetcherView {
    /// The next height to fetch.
    pub cursor: nat,
    /// The pacing mode.
    pub mode: SyncMode,
    /// Consecutive failures, capped.
    pub failures: nat,
    /// The base delay chosen when the current iteration began.
    pub base_delay: nat,
}

impl FetcherView {
    /// A fetcher that starts at `start_height`.
    pub open spec fn start(start_height: int) -> FetcherView {
        FetcherView {
            cursor: start_cursor(start_height),
            mode: SyncMode::CatchUp,
            failures: 0,
            base_delay: SyncMode::CatchUp.base_delay(),
        }
    }

    /// The failure count never passes the cap, and the base delay is one of
    /// the two that the modes have.
    pub open spec fn wf(self) -> bool {
        &&& self.failures <= MAX_BACKOFF_EXPONENT
        &&& (self.base_delay == SyncMode::CatchUp.base_delay() || self.base_delay
            == SyncMode::TipFollow.base_delay())
    }

    /// The heights of the current batch still fit the height type.
    pub open spec fn has_room(self) -> bool {
        self.cursor + self.mode.batch() <= u32::MAX
    }

    /// An iteration begins: the base delay is taken from the mode.
    pub open spec fn begin(self) -> FetcherView {
        FetcherView { base_delay: self.mode.base_delay(), ..self }
    }

    /// One more failure, up to the cap.
    pub open spec fn fail(self) -> FetcherView {
        FetcherView {
            failures: if self.failures < MAX_BACKOFF_EXPONENT {
                self.failures + 1
            } else {
                MAX_BACKOFF_EXPONENT as nat
            },
            ..self
        }
    }

    /// A block was handed to the queue: accepted, the failure count starts
    /// over; refused, it grows.
    pub open spec fn push(self, accepted: bool) -> FetcherView {
        if accepted {
            FetcherView { failures: 0, ..self }
        } else {
            self.fail()
        }
    }

    /// The fetch failed: a height beyond the tip turns the mode to
    /// tip-follow, any other failure keeps the mode; both count as a failure.
    pub open spec fn fetch_failed(self, failure: FetchFailure) -> FetcherView {
        let turned = match failure {
            FetchFailure::TipExceeded => FetcherView { mode: SyncMode::TipFollow, ..self },
            FetchFailure::Transient => self,
        };
        turned.fail()
    }

    /// The iteration ends: the cursor moves past the batch only if no failure
    /// is counted.
    pub open spec fn finish(self) -> FetcherView {
        if self.failures == 0 {
            FetcherView { cursor: self.cursor + self.mode.batch(), ..self }
        } else {
            self
        }
    }

    /// The pause after the iteration, in milliseconds.
    pub open spec fn pause(self) -> nat {
        backoff_delay(self.base_delay, self.failures)
    }
}

/// What can happen to a fetcher.
pub enum FetchEvent {
    /// An iteration begins without shutdown signalled.
    Begin,
    /// A block was handed to the queue, and was accepted or not.
    Push(bool),
    /// The fetch of the batch failed.
    FetchFailed(FetchFailure),
    /// The iteration ends.
    Finish,
}

impl FetchEvent {
    /// The event counts as a failure: a failed fetch or a refused push.
    pub open spec fn is_failure(self) -> bool {
        match self {
            FetchEvent::Push(accepted) => !accepted,
            FetchEvent::FetchFailed(_) => true,
            _ => false,
        }
    }
}

impl FetcherView {
    /// The fetcher after one event.
    pub open spec fn step(self, event: FetchEvent) -> FetcherView {
        match event {
            FetchEvent::Begin => self.begin(),
            FetchEvent::Push(accepted) => self.push(accepted),
            FetchEvent::FetchFailed(failure) => self.fetch_failed(failure),
            FetchEvent::Finish => self.finish(),
        }
    }

    /// The fetcher after a run of events, one after the other.
    pub open spec fn run(self, events: Seq<FetchEvent>) -> FetcherView
        decreases events.len(),
    {
        if events.len() == 0 {
            self
        } else {
            self.run(events.drop_last()).step(events.last())
        }
    }
}

/// Whatever happens to a fetcher, its failure count stays within the cap, its
/// cursor never moves back, and once in tip-follow mode it stays there.
pub proof fn run_keeps_course(s: FetcherView, events: Seq<FetchEvent>)
    requires
        s.wf(),
    ensures
        s.run(events).wf(),
        s.cursor <= s.run(events).cursor,
        s.mode == SyncMode::TipFollow ==> s.run(events).mode == SyncMode::TipFollow,
    decreases events.len(),
{
    if events.len() > 0 {
        run_keeps_course(s, events.drop_last());
    }
}

/// After a fetch error that reports a height beyond the tip, whatever happens
/// next, the mode is tip-follow: every later iteration asks for one height and
/// takes the tip-follow base delay.
pub proof fn tip_exceeded_is_final(s: FetcherView, events: Seq<FetchEvent>)
    requires
        s.wf(),
    ensures
        ({
            let later = s.fetch_failed(FetchFailure::TipExceeded).run(events);
            &&& later.mode == SyncMode::TipFollow
            &&& later.mode.batch() == TIP_FOLLOW_BATCH
            &&& later.begin().base_delay == TIP_FOLLOW_DELAY_MS
        }),
{
    run_keeps_course(s.fetch_failed(FetchFailure::TipExceeded), events);
}

/// Of two iterations in a row that both fail, the second pauses at least as
/// long as the first, and no pause passes its base delay doubled
/// `MAX_BACKOFF_EXPONENT` times.
pub proof fn pause_grows_across_failures(s: FetcherView, first: FetchEvent, second: FetchEvent)
    requires
        s.wf(),
        first.is_failure(),
        second.is_failure(),
    ensures
        ({
            let one = s.begin().step(first);
            let two = one.finish().begin().step(second);
            &&& one.finish().cursor == s.cursor
            &&& one.pause() <= two.pause()
            &&& two.pause() <= two.base_delay * 4096
        }),
{
    let one = s.begin().step(first);
    let two = one.finish().begin().step(second);
    assert(one.base_delay <= two.base_delay);
    assert(one.failures <= two.failures);
    backoff_grows_to_cap(one.base_delay, one.failures, two.failures);
    backoff_grows_to_cap(two.base_delay, two.failures, two.failures);
    assert(one.base_delay * pow2(capped_failures(two.failures)) <= two.base_delay * pow2(
        capped_failures(two.failures),
    )) by (nonlinear_arith)
        requires
            one.base_delay <= two.base_delay,
    ;
}

/// Right after an accepted push no failure is counted: the iteration's pause
/// is its base delay, and the cursor moves past the batch.
pub proof fn pause_resets_after_success(s: FetcherView)
    requires
        s.wf(),
    ensures
        s.push(true).failures == 0,
        s.push(true).pause() == s.base_delay,
        s.begin().push(true).pause() == s.mode.base_delay(),
        s.push(true).finish().cursor == s.cursor + s.mode.batch(),
{
    backoff_grows_to_cap(s.base_delay, 0, 0);
    backoff_grows_to_cap(s.mode.base_delay(), 0, 0);
}

/// What the fetcher wants done next.
#[derive(Debug)]
pub enum FetchPlan {
    /// Shutdown was signalled: stop for good.
    Stop,
    /// Fetch these heights, all at once, and push the blocks in this order.
    Fetch { heights: Vec<u32> },
}

/// The heights `first`, `first + 1`, ... : `count` of them.
pub open spec fn consecutive_heights(first: nat, count: nat) -> Seq<u32> {
    Seq::new(count, |i: int| (first + i) as u32)
}

/// The fetcher's state between two calls.
#[derive(Debug)]
pub struct Fetcher {
    cursor: u32,
    mode: SyncMode,
    failures: u32,
    base_delay_ms: u64,
}

impl View for Fetcher {
    type V = FetcherView;

    closed spec fn view(&self) -> FetcherView {
        FetcherView {
            cursor: self.cursor as nat,
            mode: self.mode,
            failures: self.failures as nat,
            base_delay: self.base_delay_ms as nat,
        }
    }
}

impl Fetcher {
    /// Every fetcher is well-formed.
    #[verifier::type_invariant]
    spec fn well_formed(self) -> bool {
        self@.wf()
    }

    /// A fetcher in catch-up mode with no failure counted, starting at
    /// `start_height`, or at 1 where that is not a height it can hold.
    pub fn new(start_height: i64) -> (f: Fetcher)
        ensures
            f@ == FetcherView::start(start_height as int),
            f@.wf(),
    {
        let cursor: u32 = if 0 <= start_height && start_height <= 0xffff_ffff {
            start_height as u32
        } else {
            1
        };
        Fetcher {
            cursor,
            mode: SyncMode::CatchUp,
            failures: 0,
            base_delay_ms: CATCH_UP_DELAY_MS,
        }
    }

    /// A fetcher that goes on after the checkpoint `highest_indexed`: it
    /// starts at the height after it.
    pub fn resume(highest_indexed: i64) -> (f: Fetcher)
        ensures
            f@ == FetcherView::start(highest_indexed + 1),
            f@.wf(),
    {
        if highest_indexed < 0x7fff_ffff_ffff_ffff {
            Fetcher::new(highest_indexed + 1)
        } else {
            Fetcher::new(highest_indexed)
        }
    }

    /// The next height to fetch.
    pub fn cursor(&self) -> (c: u32)
        ensures
            c == self@.cursor,
    {
        self.cursor
    }

    /// The pacing mode.
    pub fn mode(&self) -> (m: SyncMode)
        ensures
            m == self@.mode,
    {
        self.mode
    }

    /// The consecutive failures counted, capped.
    pub fn failures(&self) -> (n: u32)
        ensures
            n == self@.failures,
    {
        self.failures
    }

    /// Whether the heights of the next batch still fit the height type.
    pub fn has_room(&self) -> (r: bool)
        ensures
            r == self@.has_room(),
    {
        self.cursor <= u32::MAX - self.mode.batch_size()
    }

    /// Begins an iteration. With shutdown signalled the fetcher stops and
    /// nothing changes. Else the base delay is taken from the mode, and the
    /// plan holds the heights from the cursor on, as many as the mode's batch,
    /// in ascending order. The batch's heights must fit the height type: see
    /// `has_room`.
    pub fn begin(&mut self, shutdown: bool) -> (plan: FetchPlan)
        requires
            old(self)@.has_room(),
        ensures
            final(self)@.wf(),
            shutdown ==> plan is Stop && final(self)@ == old(self)@,
            !shutdown ==> final(self)@ == old(self)@.begin(),
            !shutdown ==> (plan matches FetchPlan::Fetch { heights } && heights@
                == consecutive_heights(old(self)@.cursor, old(self)@.mode.batch())),
    {
        proof {
            use_type_invariant(&*self);
        }
        if shutdown {
            return FetchPlan::Stop;
        }
        self.base_delay_ms = self.mode.base_delay_ms();
        let count: u32 = self.mode.batch_size();
        let mut heights: Vec<u32> = Vec::new();
        let mut i: u32 = 0;
        while i < count
            invariant
                i <= count,
                self.cursor + count <= u32::MAX,
                heights@ == consecutive_heights(self.cursor as nat, i as nat),
            decreases count - i,
        {
            heights.push(self.cursor + i);
            i = i + 1;
            assert(heights@ =~= consecutive_heights(self.cursor as nat, i as nat));
        }
        FetchPlan::Fetch { heights }
    }

    fn count_failure(&mut self)
        ensures
            final(self)@ == old(self)@.fail(),
            final(self)@.wf(),
    {
        proof {
            use_type_invariant(&*self);
        }
        if self.failures < MAX_BACKOFF_EXPONENT {
            self.failures = self.failures + 1;
        } else {
            self.failures = MAX_BACKOFF_EXPONENT;
        }
    }

    /// Records that a block was handed to the queue. An accepted block sets
    /// the failure count to 0; a refused one counts as a failure. Returns
    /// whether to go on with the batch: after a refusal the rest of the batch
    /// is not pushed.
    pub fn record_push(&mut self, accepted: bool) -> (go_on: bool)
        ensures
            final(self)@ == old(self)@.push(accepted),
            final(self)@.wf(),
            go_on == accepted,
    {
        proof {
            use_type_invariant(&*self);
        }
        if accepted {
            self.failures = 0;
        } else {
            self.count_failure();
        }
        accepted
    }

    /// Records that the fetch of the batch failed. A height beyond the tip
    /// turns the mode to tip-follow; any other failure keeps the mode. Both
    /// count as a failure.
    pub fn record_fetch_failure(&mut self, failure: FetchFailure)
        ensures
            final(self)@ == old(self)@.fetch_failed(failure),
            final(self)@.wf(),
    {
        proof {
            use_type_invariant(&*self);
        }
        match failure {
            FetchFailure::TipExceeded => {
                self.mode = SyncMode::TipFollow;
            },
            FetchFailure::Transient => {},
        }
        self.count_failure();
    }

    /// Ends the iteration. With no failure counted the cursor moves past the
    /// batch, by the batch size of the mode; else it stays, so that the same
    /// heights are fetched again. Returns the pause before the next iteration
    /// in milliseconds: the base delay chosen at the iteration's start,
    /// doubled once per failure counted. The batch's heights must fit the
    /// height type: see `has_room`.
    pub fn finish(&mut self) -> (pause_ms: u64)
        requires
            old(self)@.has_room(),
        ensures
            final(self)@ == old(self)@.finish(),
            final(self)@.wf(),
            pause_ms == old(self)@.pause(),
    {
        proof {
            use_type_invariant(&*self);
        }
        if self.failures == 0 {
            self.cursor = self.cursor + self.mode.batch_size();
        }
        delay_ms(self.base_delay_ms, self.failures)
    }
}

} // verus!
