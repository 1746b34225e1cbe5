use vstd::prelude::*;

verus! {

use vstd::arithmetic::div_mod::lemma_fundamental_div_mod;
use vstd::arithmetic::div_mod::lemma_fundamental_div_mod_converse_div;
use vstd::arithmetic::div_mod::lemma_mod_division_less_than_divisor;

/// Policy deciding how many callback firings a poll dispatches once at least
/// one whole interval is owed.
#[derive(Debug, Clone, Copy, PartialEq, Eq, Structural)]
pub enum CBTimesMethod {
    /// Fire exactly once, however many intervals have passed.
    ONCE,
    /// Fire once for every whole interval that has passed since the last poll.
    Multi,
    /// Fire once per owed interval, but never more often than the given cap.
    Fixed(u8),
}

/// The mathematical state of a [`Timer`]: the reference anchor `now` (the wall
/// clock as of the last successful poll), the running flag, the step anchor
/// `cb_last_step_time` (advanced by whole intervals whenever firings are
/// dispatched), the optional interval, and the trigger-count policy.
pub struct TimerModel {
    pub now: u64,
    pub is_running: bool,
    pub cb_last_step_time: u64,
    pub cb_duration: Option<u64>,
    pub cb_times_method: CBTimesMethod,
}

impl TimerModel {
    /// The step anchor never runs ahead of the reference anchor.
    pub open spec fn wf(self) -> bool {
        self.cb_last_step_time <= self.now
    }
}

/// How many firings a dispatching poll performs, given the policy and the
/// number of whole intervals owed.
pub open spec fn fire_count(method: CBTimesMethod, owed: nat) -> nat {
    match method {
        CBTimesMethod::ONCE => 1,
        CBTimesMethod::Multi => owed,
        CBTimesMethod::Fixed(cap) => {
            if (cap as nat) < owed {
                cap as nat
            } else {
                owed
            }
        },
    }
}

/// Whether a poll observing the given wall-clock value reaches the dispatch
/// step: the timer is running, has a positive interval, the clock did not move
/// backward, and strictly more than one interval has elapsed since the last
/// successful poll.
pub open spec fn poll_dispatches(t: TimerModel, observed_now: u64) -> bool {
    &&& t.is_running
    &&& t.cb_duration matches Some(d) && d > 0 && t.now <= observed_now && observed_now - t.now > d
}

/// Whole intervals elapsed between the reference anchor and the observed
/// wall-clock value.
pub open spec fn owed_intervals(t: TimerModel, observed_now: u64) -> nat
    recommends
        t.cb_duration matches Some(d) && d > 0,
        t.now <= observed_now,
{
    ((observed_now - t.now) / (t.cb_duration->0 as int)) as nat
}

/// The number of callback firings a poll at `observed_now` performs.
pub open spec fn poll_fires(t: TimerModel, observed_now: u64) -> nat {
    if poll_dispatches(t, observed_now) {
        fire_count(t.cb_times_method, owed_intervals(t, observed_now))
    } else {
        0
    }
}

/// Whether a poll at `observed_now` succeeds, i.e. moves the reference anchor
/// to the observed value: the timer must be running with an interval
/// configured, and the clock must not have moved backward. A poll succeeds
/// whether or not anything fires.
pub open spec fn poll_succeeds(t: TimerModel, observed_now: u64) -> bool {
    &&& t.is_running
    &&& t.cb_duration matches Some(d) && d > 0 && t.now <= observed_now
}

/// The timer state a poll at `observed_now` leaves behind. A successful poll
/// always moves the reference anchor to the observed value; a dispatching poll
/// additionally advances the step anchor by one interval per owed firing,
/// which preserves the sub-interval residue for later polls. Any other poll
/// (timer stopped, no interval, zero interval, clock moved backward) leaves
/// the timer untouched.
pub open spec fn poll_outcome(t: TimerModel, observed_now: u64) -> TimerModel {
    if poll_succeeds(t, observed_now) {
        let d = t.cb_duration->0;
        if poll_dispatches(t, observed_now) {
            TimerModel {
                now: observed_now,
                cb_last_step_time: (t.cb_last_step_time + d * owed_intervals(t, observed_now)) as u64,
                ..t
            }
        } else {
            TimerModel { now: observed_now, ..t }
        }
    } else {
        t
    }
}

/// A polling-driven scheduler: it translates elapsed wall-clock time into a
/// count of owed callback firings. The wall clock itself is supplied by the
/// caller at every poll, so the whole translation is a pure function of the
/// timer state and the observed value.
#[derive(Debug, Clone, Copy)]
pub struct Timer {
    now: u64,
    is_running: bool,
    cb_last_step_time: u64,
    cb_duration: Option<u64>,
    cb_times_method: CBTimesMethod,
}

impl View for Timer {
    type V = TimerModel;

    closed spec fn view(&self) -> TimerModel {
        TimerModel {
            now: self.now,
            is_running: self.is_running,
            cb_last_step_time: self.cb_last_step_time,
            cb_duration: self.cb_duration,
            cb_times_method: self.cb_times_method,
        }
    }
}

impl Timer {
    /// A fresh timer is stopped, and both of its anchors sit at the wall-clock
    /// value observed at construction.
    pub fn new(cb_duration: Option<u64>, cb_times_method: CBTimesMethod, now: u64) -> (t: Timer)
        ensures
            t@ == (TimerModel {
                now,
                is_running: false,
                cb_last_step_time: now,
                cb_duration,
                cb_times_method,
            }),
            t@.wf(),
    {
        Timer { now, is_running: false, cb_last_step_time: now, cb_duration, cb_times_method }
    }

    /// One poll. The caller supplies the wall-clock value it observed and
    /// performs the returned number of callback firings itself; the timer only
    /// does the time-to-count translation described by [`poll_fires`] and
    /// [`poll_outcome`]. A clock that moved backward is a recoverable anomaly:
    /// the poll is a no-op.
    pub fn update_timer(&mut self, observed_now: u64) -> (fires: u64)
        requires
            old(self)@.wf(),
        ensures
            fires == poll_fires(old(self)@, observed_now),
            final(self)@ == poll_outcome(old(self)@, observed_now),
            final(self)@.wf(),
    {
        if !self.is_running {
            return 0;
        }
        match self.cb_duration {
            None => 0,
            Some(d) => {
                if d == 0 || observed_now < self.now {
                    return 0;
                }
                let elapsed = observed_now - self.now;
                let owed = elapsed / d;
                proof {
                    lemma_fundamental_div_mod(elapsed as int, d as int);
                    lemma_mod_division_less_than_divisor(elapsed as int, d as int);
                    assert(d * owed <= elapsed);
                }
                let fires: u64 = if elapsed > d {
                    let fires = match self.cb_times_method {
                        CBTimesMethod::ONCE => 1,
                        CBTimesMethod::Multi => owed,
                        CBTimesMethod::Fixed(cap) => {
                            if (cap as u64) < owed {
                                cap as u64
                            } else {
                                owed
                            }
                        },
                    };
                    self.cb_last_step_time = self.cb_last_step_time + d * owed;
                    fires
                } else {
                    0
                };
                self.now = observed_now;
                fires
            },
        }
    }

    /// The wall-clock value of the last successful poll (or of construction).
    pub fn get_now(&self) -> (now: u64)
        ensures
            now == self@.now,
    {
        self.now
    }

    /// Whether polls currently dispatch firings.
    pub fn get_is_running(&self) -> (running: bool)
        ensures
            running == self@.is_running,
    {
        self.is_running
    }

    /// Starts or stops the timer. Stopping only silences future polls; it
    /// never destroys the timer or disturbs its anchors.
    pub fn set_is_running(&mut self, is_running: bool)
        ensures
            final(self)@ == (TimerModel { is_running, ..old(self)@ }),
    {
        self.is_running = is_running;
    }
}

/// Shared core of the policy laws below: decomposing the elapsed time as
/// `k * d + r` with `r < d` pins the owed-interval count to exactly `k`,
/// the step anchor's advance to exactly `k * d`, and the reference anchor's
/// move to the observed value.
proof fn lemma_poll_decomposition(t: TimerModel, observed_now: u64, d: u64, k: nat, r: nat)
    requires
        t.wf(),
        t.is_running,
        t.cb_duration == Some(d),
        d > 0,
        observed_now == t.now + k * d + r,
        r < d,
        !(k == 1 && r == 0),
    ensures
        owed_intervals(t, observed_now) == k,
        poll_dispatches(t, observed_now) <==> k >= 1,
        poll_outcome(t, observed_now).cb_last_step_time == t.cb_last_step_time + k * d,
        poll_outcome(t, observed_now).now == observed_now,
{
    lemma_fundamental_div_mod_converse_div(
        (observed_now - t.now) as int,
        d as int,
        k as int,
        r as int,
    );
    vstd::arithmetic::mul::lemma_mul_is_commutative(d as int, k as int);
    if k == 0 {
        assert(observed_now - t.now == r < d);
    } else if k == 1 {
        assert(observed_now - t.now == d + r > d);
    } else {
        assert(k * d >= 2 * d > d) by (nonlinear_arith)
            requires
                k >= 2,
                d > 0,
        ;
    }
    assert(t.cb_last_step_time + d * k <= observed_now);
}

/// Multi policy law: when a running timer with interval `d` is polled at a
/// wall-clock value `k * d + r` past its reference anchor (`0 <= r < d`), the
/// callback fires exactly `k` times and the step anchor advances by exactly
/// `k * d`, while the reference anchor moves to the observed value. The one
/// boundary left out is an elapsed time of exactly one interval (`k == 1`,
/// `r == 0`): dispatch requires strictly more than one interval, so such a
/// poll fires nothing.
pub proof fn lemma_multi_policy(t: TimerModel, observed_now: u64, d: u64, k: nat, r: nat)
    requires
        t.wf(),
        t.is_running,
        t.cb_times_method is Multi,
        t.cb_duration == Some(d),
        d > 0,
        observed_now == t.now + k * d + r,
        r < d,
        !(k == 1 && r == 0),
    ensures
        poll_fires(t, observed_now) == k,
        poll_outcome(t, observed_now).cb_last_step_time == t.cb_last_step_time + k * d,
        poll_outcome(t, observed_now).now == observed_now,
{
    lemma_poll_decomposition(t, observed_now, d, k, r);
}

/// ONCE policy law: whenever a poll of a running ONCE timer finds strictly
/// more than one interval elapsed, the callback fires exactly once, no matter
/// how many intervals are owed.
pub proof fn lemma_once_policy(t: TimerModel, observed_now: u64, d: u64)
    requires
        t.wf(),
        t.is_running,
        t.cb_times_method is ONCE,
        t.cb_duration == Some(d),
        d > 0,
        t.now <= observed_now,
        observed_now - t.now > d,
    ensures
        poll_fires(t, observed_now) == 1,
{
}

/// Fixed policy law: a poll of a running `Fixed(cap)` timer at `k * d + r`
/// past its reference anchor (`0 <= r < d`) fires exactly `min(cap, k)` times:
/// the cap is a true ceiling on the owed count. The step anchor still advances
/// by the full `k * d`. As with the Multi law, the boundary `k == 1, r == 0`
/// is left out because dispatch needs strictly more than one interval.
pub proof fn lemma_fixed_policy(t: TimerModel, observed_now: u64, d: u64, cap: u8, k: nat, r: nat)
    requires
        t.wf(),
        t.is_running,
        t.cb_times_method == CBTimesMethod::Fixed(cap),
        t.cb_duration == Some(d),
        d > 0,
        observed_now == t.now + k * d + r,
        r < d,
        !(k == 1 && r == 0),
    ensures
        poll_fires(t, observed_now) == if (cap as nat) < k {
            cap as nat
        } else {
            k
        },
        poll_outcome(t, observed_now).cb_last_step_time == t.cb_last_step_time + k * d,
{
    lemma_poll_decomposition(t, observed_now, d, k, r);
}

} // verus!
