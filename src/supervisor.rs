//! The output supervisor: reacts to regulator faults, backs off, re-enables
//! the output and reports each over-current episode.
//!
//! The decisions live here as a step function over plain values; the caller
//! reads the status register, performs the returned actions and sleeps until
//! the returned wake time or the fault interrupt, whichever comes first.

use vstd::prelude::*;

use crate::config::Settings;
use crate::watchdog::WATCHDOG_DEADLINE_MS;
use crate::tps55289::{
    iout_limit_code, iout_limit_code_spec, target_nanovolts, vref_code, IntFB, OutputMode, Status,
    VRef, VREF_CODES, VREF_OFFSET_NV, VREF_STEP_NV,
};

verus! {

/// Time, in milliseconds, that the output must stay fault free after enabling
/// before it is trusted.
pub const STABILIZATION_MS: u64 = 100;

/// Longest sleep of the supervisor, so that its watchdog ticket is fed in time.
pub const MAX_POLL_MS: u64 = WATCHDOG_DEADLINE_MS;

/// Largest timestamp the step function accepts, so that every deadline fits.
pub const TIME_LIMIT: u64 = 0xffff_ffff_fffe_0000;

/// The feedback ratio that the regulator is programmed with; every reference
/// code is computed through it.
pub const FEEDBACK: IntFB = IntFB::Ratio0_0564;

/// Externally visible state of the output.
#[derive(Clone, Copy, Debug, PartialEq, Eq, Structural)]
pub enum State {
    Disabled,
    Enabled,
    Enabling,
    Ocp,
}

/// Supervisor memory between two wakes. Timestamps are in milliseconds.
#[derive(Clone, Copy, Debug, PartialEq, Eq, Structural)]
pub struct Supervisor {
    pub state: State,
    /// Whether the output was last commanded active.
    pub enabled: bool,
    /// Backoff applied after a fault.
    pub backoff_ms: u16,
    /// End of the pending backoff.
    pub backoff_until: Option<u64>,
    /// End of the pending stabilization.
    pub stabilized_at: Option<u64>,
    /// Start of the open over-current episode.
    pub ocp_since: Option<u64>,
}

/// What the caller must do after one step.
#[derive(Clone, Copy, Debug, PartialEq, Eq, Structural)]
pub struct Actions {
    /// Mode to write to the regulator.
    pub mode: Option<OutputMode>,
    /// Level to drive the indicator pin of the PD controller to.
    pub indicator: Option<bool>,
    /// Duration, in seconds, of an over-current episode that just closed.
    pub overcurrent_secs: Option<u64>,
    /// When to wake at the latest.
    pub wake_at: u64,
}

/// The earlier of a running minimum and one more candidate.
pub open spec fn earlier(acc: Option<u64>, d: Option<u64>) -> Option<u64> {
    match (acc, d) {
        (None, d) => d,
        (acc, None) => acc,
        (Some(a), Some(b)) => if a > b {
            Some(b)
        } else {
            Some(a)
        },
    }
}

/// The earliest of the present deadlines, `None` when none is present.
pub open spec fn earliest(ds: Seq<Option<u64>>) -> Option<u64>
    decreases ds.len(),
{
    if ds.len() == 0 {
        None
    } else {
        earlier(earliest(ds.drop_last()), ds.last())
    }
}

/// The earliest present deadline of `deadlines`.
pub fn earliest_deadline(deadlines: &[Option<u64>]) -> (r: Option<u64>)
    ensures
        r == earliest(deadlines@),
        r is None <==> forall|i: int| 0 <= i < deadlines@.len() ==> #[trigger] deadlines@[i] is None,
        r is Some ==> exists|i: int| 0 <= i < deadlines@.len() && #[trigger] deadlines@[i] == r,
        r is Some ==> forall|i: int|
            0 <= i < deadlines@.len() && #[trigger] deadlines@[i] is Some ==> r->0 <= deadlines@[i]->0,
{
    let mut res: Option<u64> = None;
    let mut i: usize = 0;
    while i < deadlines.len()
        invariant
            i <= deadlines@.len(),
            res == earliest(deadlines@.subrange(0, i as int)),
        decreases deadlines@.len() - i,
    {
        assert(deadlines@.subrange(0, i + 1).drop_last() == deadlines@.subrange(0, i as int));
        if let Some(d) = deadlines[i] {
            if let Some(cur) = res {
                if cur > d {
                    res = Some(d);
                }
            } else {
                res = Some(d);
            }
        }
        i = i + 1;
    }
    assert(deadlines@.subrange(0, deadlines@.len() as int) == deadlines@);
    proof {
        lemma_earliest_is_minimum(deadlines@);
    }
    res
}

/// The earliest present deadline is one of them and none comes before it.
proof fn lemma_earliest_is_minimum(ds: Seq<Option<u64>>)
    ensures
        earliest(ds) is None <==> forall|i: int| 0 <= i < ds.len() ==> #[trigger] ds[i] is None,
        earliest(ds) is Some ==> exists|i: int| 0 <= i < ds.len() && #[trigger] ds[i] == earliest(ds),
        earliest(ds) is Some ==> forall|i: int|
            0 <= i < ds.len() && #[trigger] ds[i] is Some ==> earliest(ds)->0 <= ds[i]->0,
    decreases ds.len(),
{
    if ds.len() > 0 {
        let init = ds.drop_last();
        lemma_earliest_is_minimum(init);
        assert forall|i: int| 0 <= i < init.len() implies init[i] == #[trigger] ds[i] by {}
        if earliest(ds) is Some && earliest(ds) != ds.last() {
            let j = choose|j: int| 0 <= j < init.len() && #[trigger] init[j] == earliest(init);
            assert(ds[j] == earliest(ds));
        }
    }
}

/// When the supervisor wakes at the latest, given its memory after a step.
pub open spec fn wake_time(s: Supervisor, now: u64) -> u64 {
    earliest(seq![Some((now + MAX_POLL_MS) as u64), s.backoff_until, s.stabilized_at])->0
}

/// One step of the supervisor at time `now`, given whether the regulator
/// reports over-current or short circuit.
pub open spec fn step_spec(s: Supervisor, fault: bool, now: u64) -> (Supervisor, Actions) {
    if fault {
        let n = Supervisor {
            state: State::Ocp,
            enabled: false,
            backoff_until: match s.backoff_until {
                Some(u) => Some(u),
                None => Some((now + s.backoff_ms) as u64),
            },
            stabilized_at: None,
            ocp_since: match s.ocp_since {
                Some(t) => Some(t),
                None => Some(now),
            },
            ..s
        };
        (
            n,
            Actions {
                mode: Some(OutputMode::SafeIdle),
                indicator: Some(false),
                overcurrent_secs: None,
                wake_at: wake_time(n, now),
            },
        )
    } else if !s.enabled {
        let activate = match s.backoff_until {
            Some(u) => u < now,
            None => true,
        };
        if activate {
            let n = Supervisor {
                state: State::Enabling,
                enabled: true,
                backoff_until: None,
                stabilized_at: Some((now + STABILIZATION_MS) as u64),
                ..s
            };
            (
                n,
                Actions {
                    mode: Some(OutputMode::Active),
                    indicator: Some(true),
                    overcurrent_secs: None,
                    wake_at: wake_time(n, now),
                },
            )
        } else {
            (
                s,
                Actions {
                    mode: None,
                    indicator: None,
                    overcurrent_secs: None,
                    wake_at: wake_time(s, now),
                },
            )
        }
    } else if s.stabilized_at is Some && s.stabilized_at->0 < now {
        let n = Supervisor { state: State::Enabled, stabilized_at: None, ocp_since: None, ..s };
        (
            n,
            Actions {
                mode: None,
                indicator: None,
                overcurrent_secs: match s.ocp_since {
                    Some(t) => Some(episode_secs(t, now)),
                    None => None,
                },
                wake_at: wake_time(n, now),
            },
        )
    } else {
        (
            s,
            Actions { mode: None, indicator: None, overcurrent_secs: None, wake_at: wake_time(s, now) },
        )
    }
}

/// Whole seconds from `since` to `now`, zero if the clock did not advance.
pub open spec fn episode_secs(since: u64, now: u64) -> u64 {
    if now >= since {
        ((now - since) / 1000) as u64
    } else {
        0
    }
}


/// The memory agrees with its state: what is pending in each state.
pub open spec fn wf(s: Supervisor) -> bool {
    match s.state {
        State::Disabled => !s.enabled && s.backoff_until is None && s.stabilized_at is None
            && s.ocp_since is None,
        State::Ocp => !s.enabled && s.backoff_until is Some && s.stabilized_at is None
            && s.ocp_since is Some,
        State::Enabling => s.enabled && s.backoff_until is None && s.stabilized_at is Some,
        State::Enabled => s.enabled && s.backoff_until is None && s.stabilized_at is None
            && s.ocp_since is None,
    }
}

/// The states that may follow `a` in one step.
pub open spec fn may_follow(a: State, b: State) -> bool {
    match a {
        State::Disabled => b == State::Enabling || b == State::Ocp,
        State::Ocp => b == State::Ocp || b == State::Enabling,
        State::Enabling => b == State::Enabling || b == State::Enabled || b == State::Ocp,
        State::Enabled => b == State::Enabled || b == State::Ocp,
    }
}

/// Whether an over-current episode is open.
pub open spec fn episode_open(s: Supervisor) -> bool {
    s.ocp_since is Some
}

/// The memory after running the steps of `trace` (fault flag, time) in order.
pub open spec fn run(s: Supervisor, trace: Seq<(bool, u64)>) -> Supervisor
    decreases trace.len(),
{
    if trace.len() == 0 {
        s
    } else {
        run(step_spec(s, trace[0].0, trace[0].1).0, trace.drop_first())
    }
}

/// How many episode durations the steps of `trace` report.
pub open spec fn events(s: Supervisor, trace: Seq<(bool, u64)>) -> nat
    decreases trace.len(),
{
    if trace.len() == 0 {
        0
    } else {
        let (n, a) = step_spec(s, trace[0].0, trace[0].1);
        (if a.overcurrent_secs is Some {
            1nat
        } else {
            0nat
        }) + events(n, trace.drop_first())
    }
}

/// How many over-current episodes the steps of `trace` open.
pub open spec fn openings(s: Supervisor, trace: Seq<(bool, u64)>) -> nat
    decreases trace.len(),
{
    if trace.len() == 0 {
        0
    } else {
        let n = step_spec(s, trace[0].0, trace[0].1).0;
        (if !episode_open(s) && episode_open(n) {
            1nat
        } else {
            0nat
        }) + openings(n, trace.drop_first())
    }
}

/// A fault drives the output to safe idle in state `Ocp`, turns the indicator
/// off and reports nothing; a fault inside an open episode keeps the episode's
/// start and a pending backoff keeps its end.
pub proof fn lemma_fault_reaction(s: Supervisor, now: u64)
    ensures
        step_spec(s, true, now).0.state == State::Ocp,
        step_spec(s, true, now).1.mode == Some(OutputMode::SafeIdle),
        step_spec(s, true, now).1.indicator == Some(false),
        step_spec(s, true, now).1.overcurrent_secs is None,
        episode_open(step_spec(s, true, now).0),
        episode_open(s) ==> step_spec(s, true, now).0.ocp_since == s.ocp_since,
        s.backoff_until is Some ==> step_spec(s, true, now).0.backoff_until == s.backoff_until,
{
}

/// The output is only commanded active without a fault and once no backoff
/// is pending any more.
pub proof fn lemma_no_enable_during_backoff(s: Supervisor, fault: bool, now: u64)
    ensures
        step_spec(s, fault, now).1.mode == Some(OutputMode::Active) ==> !fault && (
        s.backoff_until is None || s.backoff_until->0 < now),
{
}

/// From a consistent memory every step leads to a consistent memory and to a
/// state that may follow: `Enabled` is left only for `Ocp`, `Ocp` only for
/// `Enabling`, and `Enabled` is only reached from `Enabling`.
pub proof fn lemma_step_successors(s: Supervisor, fault: bool, now: u64)
    requires
        wf(s),
    ensures
        wf(step_spec(s, fault, now).0),
        may_follow(s.state, step_spec(s, fault, now).0.state),
{
}

/// Over any run, each over-current episode is reported exactly once: the
/// reports plus an episode still open at the end equal the episodes opened
/// plus one already open at the start. A fault inside an open episode opens
/// no new one.
pub proof fn lemma_one_event_per_episode(s: Supervisor, trace: Seq<(bool, u64)>)
    ensures
        events(s, trace) + (if episode_open(run(s, trace)) {
            1nat
        } else {
            0nat
        }) == openings(s, trace) + (if episode_open(s) {
            1nat
        } else {
            0nat
        }),
    decreases trace.len(),
{
    if trace.len() > 0 {
        let n = step_spec(s, trace[0].0, trace[0].1).0;
        lemma_one_event_per_episode(n, trace.drop_first());
    }
}

impl Supervisor {
    /// A supervisor at boot: output disabled, nothing pending.
    pub fn new(backoff_ms: u16) -> (r: Supervisor)
        ensures
            r == (Supervisor {
                state: State::Disabled,
                enabled: false,
                backoff_ms,
                backoff_until: None,
                stabilized_at: None,
                ocp_since: None,
            }),
    {
        Supervisor {
            state: State::Disabled,
            enabled: false,
            backoff_ms,
            backoff_until: None,
            stabilized_at: None,
            ocp_since: None,
        }
    }

    /// The current state of the output.
    pub fn state(&self) -> (r: State)
        ensures
            r == self.state,
    {
        self.state
    }

    /// Takes a new backoff for the faults to come.
    pub fn set_backoff(&mut self, backoff_ms: u16)
        ensures
            *final(self) == (Supervisor { backoff_ms, ..*old(self) }),
    {
        self.backoff_ms = backoff_ms;
    }

    /// Decides, from the status register read at `now`, the next memory and
    /// what to do.
    pub fn step(&mut self, status: &Status, now: u64) -> (a: Actions)
        requires
            now <= TIME_LIMIT,
        ensures
            (*final(self), a) == step_spec(*old(self), status.ocp || status.scp, now),
    {
        let fault = status.is_overcurrent();
        let mut a = Actions { mode: None, indicator: None, overcurrent_secs: None, wake_at: 0 };
        if fault {
            self.state = State::Ocp;
            self.enabled = false;
            if self.backoff_until.is_none() {
                self.backoff_until = Some(now + self.backoff_ms as u64);
            }
            self.stabilized_at = None;
            if self.ocp_since.is_none() {
                self.ocp_since = Some(now);
            }
            a.mode = Some(OutputMode::SafeIdle);
            a.indicator = Some(false);
        } else if !self.enabled {
            let activate = match self.backoff_until {
                Some(until) => until < now,
                None => true,
            };
            if activate {
                self.state = State::Enabling;
                self.enabled = true;
                self.backoff_until = None;
                self.stabilized_at = Some(now + STABILIZATION_MS);
                a.mode = Some(OutputMode::Active);
                a.indicator = Some(true);
            }
        } else if let Some(at) = self.stabilized_at {
            if at < now {
                self.state = State::Enabled;
                self.stabilized_at = None;
                if let Some(since) = self.ocp_since {
                    let secs = if now >= since {
                        (now - since) / 1000
                    } else {
                        0
                    };
                    a.overcurrent_secs = Some(secs);
                    self.ocp_since = None;
                }
            }
        }
        let candidates = vec![Some(now + MAX_POLL_MS), self.backoff_until, self.stabilized_at];
        proof {
            let ds = candidates@;
            assert(ds.drop_last() == seq![ds[0], ds[1]]);
            assert(ds.drop_last().drop_last() == seq![ds[0]]);
            assert(ds.drop_last().drop_last().drop_last() == Seq::<Option<u64>>::empty());
            reveal_with_fuel(earliest, 4);
            assert(earliest(ds) is Some);
            assert(ds == seq![Some((now + MAX_POLL_MS) as u64), self.backoff_until, self.stabilized_at]);
        }
        let wake = earliest_deadline(candidates.as_slice());
        a.wake_at = wake.unwrap();
        a
    }
}

/// What the regulator is programmed with for a set of settings.
#[derive(Clone, Copy, Debug, PartialEq, Eq, Structural)]
pub struct RegulatorTarget {
    pub vref: VRef,
    pub iout_limit: u8,
    pub backoff_ms: u16,
}

/// Whether the regulator can produce `settings.vout_mv` through [`FEEDBACK`].
pub open spec fn vout_in_range(settings: Settings) -> bool {
    &&& VREF_OFFSET_NV <= target_nanovolts(settings.vout_mv, FEEDBACK)
    &&& vref_code(target_nanovolts(settings.vout_mv, FEEDBACK)) < VREF_CODES
}

impl RegulatorTarget {
    /// The register values for `settings`, or `None` when the output voltage
    /// lies outside what the reference register can select.
    pub fn from_settings(settings: &Settings) -> (r: Option<RegulatorTarget>)
        ensures
            r is Some <==> vout_in_range(*settings),
            r is Some ==> r->0.vref.0 == vref_code(target_nanovolts(settings.vout_mv, FEEDBACK)),
            r is Some ==> r->0.iout_limit == iout_limit_code_spec(settings.iout_ma),
            r is Some ==> r->0.backoff_ms == settings.backoff_ms,
    {
        let ratio = FEEDBACK.ratio();
        let mv = settings.vout_mv.0 as u64;
        assert(mv * ratio * 100 <= 65535 * 2256 * 100) by (nonlinear_arith)
            requires
                mv <= 65535,
                ratio <= 2256,
        ;
        let nanovolts = mv * ratio as u64 * 100;
        // Reference voltage of the first code past the register's range.
        let upper: u64 = 1_201_096_000;
        assert(upper == VREF_OFFSET_NV + VREF_STEP_NV * VREF_CODES);
        if nanovolts < VREF_OFFSET_NV as u64 || nanovolts >= upper {
            return None;
        }
        let vref = VRef::from_feedback(settings.vout_mv, FEEDBACK);
        Some(
            RegulatorTarget {
                vref,
                iout_limit: iout_limit_code(settings.iout_ma),
                backoff_ms: settings.backoff_ms,
            },
        )
    }
}

} // verus!
