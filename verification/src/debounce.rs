//! Coalescing of rapid focus-change submissions.
//!
//! The debouncer guarantees that a burst of rapid submissions produces at
//! most one delivery after the burst settles, while the first submission of
//! a fresh burst is handed out immediately.  The struct here holds only the
//! protected state and its transitions; the caller owns the lock, the clock,
//! the sink and the single background timer task.

use vstd::prelude::*;

verus! {

/// Mathematical model of the debouncer's protected state.
#[verifier::ext_equal]
pub struct DebounceModel {
    /// The most recent message not yet taken by the timer path.
    pub pending: Option<Seq<char>>,
    /// Timestamp (milliseconds) of the most recent submission.
    pub last_activity: int,
    /// Whether a background timer task is currently alive.
    pub timer_running: bool,
}

/// Milliseconds of inactivity required before the timer path delivers.
pub open spec fn quiescence_ms() -> int {
    500
}

/// The view of an optional owned message.
pub open spec fn opt_view(o: Option<String>) -> Option<Seq<char>> {
    match o {
        Some(s) => Some(s@),
        None => None,
    }
}

/// A submission is handed out immediately when it opens a fresh burst:
/// either nothing is pending, or the gap since the last submission exceeds
/// the quiescence window.
pub open spec fn submit_sends_now(m: DebounceModel, now: int) -> bool {
    m.pending is None || now - m.last_activity > quiescence_ms()
}

/// A submission arms the timer when it is coalesced and no timer is alive.
pub open spec fn submit_arms_timer(m: DebounceModel, now: int) -> bool {
    !submit_sends_now(m, now) && !m.timer_running
}

/// The state after a submission of message `p` at time `now`:
/// last-write-wins on the pending message, activity timestamp refreshed,
/// timer armed if this submission required one.
pub open spec fn submit_post(m: DebounceModel, p: Seq<char>, now: int) -> DebounceModel {
    DebounceModel {
        pending: Some(p),
        last_activity: now,
        timer_running: m.timer_running || submit_arms_timer(m, now),
    }
}

/// A timer check fires once the quiescence window has elapsed.
pub open spec fn tick_fires(m: DebounceModel, now: int) -> bool {
    now - m.last_activity >= quiescence_ms()
}

/// The message a firing timer check delivers: the pending one, if any.
pub open spec fn tick_delivery(m: DebounceModel, now: int) -> Option<Seq<char>> {
    if tick_fires(m, now) {
        m.pending
    } else {
        None
    }
}

/// The state after a timer check: a firing check takes the pending message
/// and disarms the timer; otherwise nothing changes.
pub open spec fn tick_post(m: DebounceModel, now: int) -> DebounceModel {
    if tick_fires(m, now) {
        DebounceModel { pending: None, last_activity: m.last_activity, timer_running: false }
    } else {
        m
    }
}

/// The debouncer state.  All mutation happens through `submit` and
/// `timer_tick`; a caller that shares one instance across threads must
/// serialize those calls, holding them under one lock.
pub struct Debouncer {
    pending: Option<String>,
    last_activity_ms: u64,
    timer_running: bool,
}

impl View for Debouncer {
    type V = DebounceModel;

    closed spec fn view(&self) -> DebounceModel {
        DebounceModel {
            pending: opt_view(self.pending),
            last_activity: self.last_activity_ms as int,
            timer_running: self.timer_running,
        }
    }
}

/// What one submission asks of its caller.
pub struct SubmitOutcome {
    /// The message to hand to the sink right away (immediate path), if any.
    pub deliver_now: Option<String>,
    /// True when the caller must start the single background timer task.
    pub arm_timer: bool,
}

/// What one timer check asks of its caller.
pub struct TickOutcome {
    /// The message to hand to the sink because the burst settled, if any.
    pub deliver: Option<String>,
    /// True when the timer task must exit (the quiescence window elapsed).
    pub exit: bool,
}

impl Debouncer {
    /// A fresh debouncer: nothing pending, no timer, activity clock at `now_ms`.
    pub fn new(now_ms: u64) -> (d: Self)
        ensures
            d@ == (DebounceModel {
                pending: None,
                last_activity: now_ms as int,
                timer_running: false,
            }),
    {
        Debouncer { pending: None, last_activity_ms: now_ms, timer_running: false }
    }

    /// Record a submission at time `now_ms` (milliseconds on a monotonic
    /// clock).  Returns the message to deliver immediately, if this
    /// submission opens a fresh burst, and whether to start the timer task.
    pub fn submit(&mut self, message: String, now_ms: u64) -> (out: SubmitOutcome)
        requires
            old(self)@.last_activity <= now_ms,
        ensures
            final(self)@ == submit_post(old(self)@, message@, now_ms as int),
            opt_view(out.deliver_now) == (if submit_sends_now(old(self)@, now_ms as int) {
                Some(message@)
            } else {
                None::<Seq<char>>
            }),
            out.arm_timer == submit_arms_timer(old(self)@, now_ms as int),
    {
        let is_first = self.pending.is_none();
        let elapsed = now_ms - self.last_activity_ms;
        self.last_activity_ms = now_ms;
        let send_now = is_first || elapsed > 500;
        let deliver_now = if send_now {
            Some(message.clone())
        } else {
            None
        };
        let arm_timer = !send_now && !self.timer_running;
        if arm_timer {
            self.timer_running = true;
        }
        self.pending = Some(message);
        SubmitOutcome { deliver_now, arm_timer }
    }

    /// One wake-up of the timer task at time `now_ms`: once the quiescence
    /// window has elapsed, take the pending message for delivery, disarm,
    /// and tell the task to exit; otherwise keep waiting.
    pub fn timer_tick(&mut self, now_ms: u64) -> (out: TickOutcome)
        requires
            old(self)@.last_activity <= now_ms,
        ensures
            final(self)@ == tick_post(old(self)@, now_ms as int),
            opt_view(out.deliver) == tick_delivery(old(self)@, now_ms as int),
            out.exit == tick_fires(old(self)@, now_ms as int),
    {
        let elapsed = now_ms - self.last_activity_ms;
        if elapsed >= 500 {
            let msg = self.pending.take();
            self.timer_running = false;
            TickOutcome { deliver: msg, exit: true }
        } else {
            TickOutcome { deliver: None, exit: false }
        }
    }
}

/// One submission of a burst, as the model sees it: a timestamp and the
/// serialized message submitted at that instant.
pub struct BurstStep {
    pub at: int,
    pub payload: Seq<char>,
}

/// A well-formed burst starting from state `m`: timestamps never run
/// backwards, and each submission lands within the quiescence window of the
/// previous activity.
pub open spec fn burst_wf(m: DebounceModel, steps: Seq<BurstStep>) -> bool
    decreases steps.len(),
{
    steps.len() == 0 || {
        &&& m.last_activity <= steps[0].at
        &&& steps[0].at - m.last_activity <= quiescence_ms()
        &&& burst_wf(submit_post(m, steps[0].payload, steps[0].at), steps.drop_first())
    }
}

/// The state after running a whole burst of submissions.
pub open spec fn burst_final(m: DebounceModel, steps: Seq<BurstStep>) -> DebounceModel
    decreases steps.len(),
{
    if steps.len() == 0 {
        m
    } else {
        burst_final(submit_post(m, steps[0].payload, steps[0].at), steps.drop_first())
    }
}

/// How many submissions of the burst take the immediate path.
pub open spec fn burst_immediate_count(m: DebounceModel, steps: Seq<BurstStep>) -> int
    decreases steps.len(),
{
    if steps.len() == 0 {
        0
    } else {
        (if submit_sends_now(m, steps[0].at) {
            1int
        } else {
            0int
        }) + burst_immediate_count(submit_post(m, steps[0].payload, steps[0].at), steps.drop_first())
    }
}

/// How many submissions of the burst arm a timer task.
pub open spec fn burst_arm_count(m: DebounceModel, steps: Seq<BurstStep>) -> int
    decreases steps.len(),
{
    if steps.len() == 0 {
        0
    } else {
        (if submit_arms_timer(m, steps[0].at) {
            1int
        } else {
            0int
        }) + burst_arm_count(submit_post(m, steps[0].payload, steps[0].at), steps.drop_first())
    }
}

/// Law (immediate first): a submission into a debouncer with nothing
/// pending — in particular a fresh one — takes the immediate path.
pub proof fn lemma_first_submission_immediate(m: DebounceModel, now: int)
    requires
        m.pending is None,
    ensures
        submit_sends_now(m, now),
{
}

/// Law (quiescence threshold): a submission whose gap since the previous
/// activity exceeds the quiescence window takes the immediate path, opening
/// a fresh burst instead of being coalesced.
pub proof fn lemma_gap_over_quiescence_immediate(m: DebounceModel, now: int)
    requires
        now - m.last_activity > quiescence_ms(),
    ensures
        submit_sends_now(m, now),
{
}

/// Law (coalescing): while something is pending, a burst whose submissions
/// all land within the quiescence window produces no immediate delivery,
/// arms at most one timer (exactly one if none was running), and leaves the
/// last submitted message pending.
pub proof fn lemma_burst_coalesces(m: DebounceModel, steps: Seq<BurstStep>)
    requires
        m.pending is Some,
        burst_wf(m, steps),
    ensures
        burst_immediate_count(m, steps) == 0,
        burst_arm_count(m, steps) == if m.timer_running || steps.len() == 0 {
            0int
        } else {
            1int
        },
        steps.len() > 0 ==> burst_final(m, steps).pending == Some(steps.last().payload),
        steps.len() > 0 ==> burst_final(m, steps).timer_running,
        steps.len() > 0 ==> burst_final(m, steps).last_activity == steps.last().at,
    decreases steps.len(),
{
    if steps.len() > 0 {
        let m1 = submit_post(m, steps[0].payload, steps[0].at);
        lemma_burst_coalesces(m1, steps.drop_first());
        if steps.len() > 1 {
            assert(steps.drop_first().last() == steps.last());
        }
    }
}

/// Law (single timer): however many snapshots a burst submits, at most one
/// timer task is ever armed; none is when one is already running.
pub proof fn lemma_single_timer(m: DebounceModel, steps: Seq<BurstStep>)
    requires
        burst_wf(m, steps),
    ensures
        burst_arm_count(m, steps) + (if m.timer_running {
            1int
        } else {
            0int
        }) <= 1,
        burst_arm_count(m, steps) >= 0,
    decreases steps.len(),
{
    if steps.len() > 0 {
        let m1 = submit_post(m, steps[0].payload, steps[0].at);
        lemma_single_timer(m1, steps.drop_first());
    }
}

/// Law (burst then quiescence): after a coalesced burst settles for at
/// least the quiescence window, the next timer check fires and delivers
/// exactly the last message of the burst.
pub proof fn lemma_burst_then_quiescence_delivers_last(
    m: DebounceModel,
    steps: Seq<BurstStep>,
    now: int,
)
    requires
        m.pending is Some,
        burst_wf(m, steps),
        steps.len() > 0,
        now - steps.last().at >= quiescence_ms(),
    ensures
        burst_immediate_count(m, steps) == 0,
        tick_fires(burst_final(m, steps), now),
        tick_delivery(burst_final(m, steps), now) == Some(steps.last().payload),
{
    lemma_burst_coalesces(m, steps);
}

} // verus!
