//! The round timer: one phase (work or break) counted down second by
//! second. The timer is a pure state machine: the surrounding loop tells it
//! that a second has elapsed or that a pause request was consumed, and the
//! timer answers with what must happen next (advance the display, play the
//! warning cue, prompt for resume, re-arm the pause listener). Sleeping,
//! drawing and audio stay with the caller.

use vstd::prelude::*;
use vstd::arithmetic::div_mod::lemma_fundamental_div_mod;
use vstd::arithmetic::div_mod::lemma_mod_bound;

verus! {

/// One event the tick loop hands to the timer: a second of the countdown
/// has elapsed, or a pause request was consumed from the pause channel.
#[derive(Clone, Copy, PartialEq, Eq, Structural, Debug)]
pub enum PhaseEvent {
    TickElapsed,
    PauseConsumed,
}

/// What the tick loop must do after handing the timer one event.
#[derive(Clone, Copy, PartialEq, Eq, Structural, Debug)]
pub struct TickOutcome {
    /// Advance the progress display by one unit.
    pub advance_display: bool,
    /// Play the warning cue.
    pub play_warning: bool,
    /// Block on the resume confirmation prompt.
    pub prompt_resume: bool,
    /// Spawn a fresh pause listener: pause detection re-arms after each
    /// consumed pause, and stays disarmed if the caller skips this.
    pub rearm_listener: bool,
}

/// The countdown of one phase. `elapsed_seconds` grows from zero to
/// `duration_minutes * 60`; `warn_latch` remembers that the warning cue has
/// already been played, so it is played at most once per phase.
#[derive(Clone, Copy, PartialEq, Eq, Structural, Debug)]
pub struct PhaseTimer {
    pub duration_minutes: u64,
    pub warning_lead_minutes: u64,
    pub warn_enabled: bool,
    pub sound_enabled: bool,
    pub elapsed_seconds: u64,
    pub warn_latch: bool,
}

impl PhaseTimer {
    /// The whole phase, in seconds.
    pub open spec fn spec_duration_seconds(self) -> int {
        self.duration_minutes * 60
    }

    /// The duration must fit in seconds, and the countdown never runs past
    /// its end.
    pub open spec fn wf(self) -> bool {
        &&& self.spec_duration_seconds() <= u64::MAX
        &&& self.elapsed_seconds <= self.spec_duration_seconds()
    }

    /// A countdown that has not started: nothing elapsed, no cue played.
    pub open spec fn fresh(self) -> bool {
        &&& self.elapsed_seconds == 0
        &&& !self.warn_latch
    }

    /// The warning cue is due at this very second: warnings are on, sound is
    /// on, the lead is shorter than the phase, the elapsed minute count has
    /// just reached `duration - lead`, and the cue has not been played yet.
    /// A lead of zero or more than the whole phase can never match, which
    /// silently suppresses the warning.
    pub open spec fn warning_due(self) -> bool {
        &&& self.warn_enabled
        &&& self.sound_enabled
        &&& self.duration_minutes > self.warning_lead_minutes
        &&& self.elapsed_seconds as int / 60
            == self.duration_minutes - self.warning_lead_minutes
        &&& !self.warn_latch
    }

    /// One elapsed second: the latch is set the moment the warning fires,
    /// and the elapsed count grows by one.
    pub open spec fn spec_step(self) -> PhaseTimer {
        PhaseTimer {
            elapsed_seconds: (self.elapsed_seconds + 1) as u64,
            warn_latch: self.warn_latch || self.warning_due(),
            ..self
        }
    }

    /// A consumed pause leaves the countdown untouched; only an elapsed
    /// second moves it.
    pub open spec fn spec_on_event(self, ev: PhaseEvent) -> PhaseTimer {
        match ev {
            PhaseEvent::TickElapsed => self.spec_step(),
            PhaseEvent::PauseConsumed => self,
        }
    }

    /// The timer after `n` elapsed seconds.
    pub open spec fn run_ticks(self, n: nat) -> PhaseTimer
        decreases n,
    {
        if n == 0 {
            self
        } else {
            self.run_ticks((n - 1) as nat).spec_step()
        }
    }

    /// The timer after a whole sequence of events.
    pub open spec fn run_events(self, evs: Seq<PhaseEvent>) -> PhaseTimer
        decreases evs.len(),
    {
        if evs.len() == 0 {
            self
        } else {
            self.run_events(evs.drop_last()).spec_on_event(evs.last())
        }
    }

    /// Start the countdown of one phase.
    pub fn new(
        duration_minutes: u64,
        warning_lead_minutes: u64,
        warn_enabled: bool,
        sound_enabled: bool,
    ) -> (t: PhaseTimer)
        requires
            duration_minutes * 60 <= u64::MAX,
        ensures
            t == (PhaseTimer {
                duration_minutes,
                warning_lead_minutes,
                warn_enabled,
                sound_enabled,
                elapsed_seconds: 0u64,
                warn_latch: false,
            }),
            t.wf(),
            t.fresh(),
    {
        PhaseTimer {
            duration_minutes,
            warning_lead_minutes,
            warn_enabled,
            sound_enabled,
            elapsed_seconds: 0u64,
            warn_latch: false,
        }
    }

    /// The whole phase, in seconds.
    pub fn duration_seconds(&self) -> (s: u64)
        requires
            self.wf(),
        ensures
            s == self.duration_minutes * 60,
    {
        self.duration_minutes * 60
    }

    /// Whether the countdown has run through all of its seconds.
    pub fn finished(&self) -> (done: bool)
        requires
            self.wf(),
        ensures
            done <==> self.elapsed_seconds == self.duration_minutes * 60,
    {
        self.elapsed_seconds == self.duration_minutes * 60
    }

    /// Feed the timer one event. An elapsed second advances the countdown by
    /// exactly one and reports whether the warning cue fires at it; a
    /// consumed pause changes nothing in the countdown and asks the caller
    /// to prompt for resume and to re-arm the pause listener.
    pub fn on_event(&mut self, ev: PhaseEvent) -> (out: TickOutcome)
        requires
            old(self).wf(),
            ev is TickElapsed
                ==> old(self).elapsed_seconds < old(self).duration_minutes * 60,
        ensures
            final(self).wf(),
            *final(self) == old(self).spec_on_event(ev),
            out.advance_display <==> ev is TickElapsed,
            out.play_warning <==> (ev is TickElapsed && old(self).warning_due()),
            out.prompt_resume <==> ev is PauseConsumed,
            out.rearm_listener <==> ev is PauseConsumed,
    {
        match ev {
            PhaseEvent::TickElapsed => {
                let fire: bool = self.warn_enabled && self.sound_enabled
                    && self.duration_minutes > self.warning_lead_minutes
                    && self.elapsed_seconds / 60
                        == self.duration_minutes - self.warning_lead_minutes
                    && !self.warn_latch;
                if fire {
                    self.warn_latch = true;
                }
                self.elapsed_seconds = self.elapsed_seconds + 1;
                TickOutcome {
                    advance_display: true,
                    play_warning: fire,
                    prompt_resume: false,
                    rearm_listener: false,
                }
            }
            PhaseEvent::PauseConsumed => {
                TickOutcome {
                    advance_display: false,
                    play_warning: false,
                    prompt_resume: true,
                    rearm_listener: true,
                }
            }
        }
    }
}

/// Milliseconds still to sleep of one tick's one-second budget, after the
/// tick's own work took `spent_millis`: the remainder of the second, clamped
/// to zero when the budget is already spent or a clock anomaly reports more
/// than a second. The tick cadence thus corrects itself for cue and display
/// latency instead of drifting, and never fails on a strange clock reading.
pub fn sleep_budget_millis(spent_millis: u64) -> (wait: u64)
    ensures
        wait == if spent_millis >= 1000 {
            0u64
        } else {
            (1000 - spent_millis) as u64
        },
        wait <= 1000,
{
    if spent_millis >= 1000 {
        0
    } else {
        1000 - spent_millis
    }
}

/// Number of elapsed-second events in a sequence of events.
pub open spec fn tick_count(evs: Seq<PhaseEvent>) -> nat
    decreases evs.len(),
{
    if evs.len() == 0 {
        0
    } else {
        tick_count(evs.drop_last()) + if evs.last() is TickElapsed {
            1nat
        } else {
            0nat
        }
    }
}

/// For nonnegative `x` and `q`: `x / 60 == q` exactly when `x` lies in the
/// minute that starts at second `q * 60`.
proof fn lemma_div60_eq(x: int, q: int)
    requires
        0 <= x,
        0 <= q,
    ensures
        (x / 60 == q) <==> (q * 60 <= x < q * 60 + 60),
{
    lemma_fundamental_div_mod(x, 60);
    lemma_mod_bound(x, 60);
}

/// Elapsed seconds change none of the phase parameters.
pub proof fn lemma_run_ticks_params(t: PhaseTimer, n: nat)
    ensures
        t.run_ticks(n).duration_minutes == t.duration_minutes,
        t.run_ticks(n).warning_lead_minutes == t.warning_lead_minutes,
        t.run_ticks(n).warn_enabled == t.warn_enabled,
        t.run_ticks(n).sound_enabled == t.sound_enabled,
    decreases n,
{
    if n > 0 {
        lemma_run_ticks_params(t, (n - 1) as nat);
    }
}

/// The countdown is exact: `n` elapsed seconds move it forward by exactly
/// `n`, and never past the end of the phase.
pub proof fn lemma_run_ticks_elapsed(t: PhaseTimer, n: nat)
    requires
        t.wf(),
        t.elapsed_seconds + n <= t.duration_minutes * 60,
    ensures
        t.run_ticks(n).wf(),
        t.run_ticks(n).elapsed_seconds == t.elapsed_seconds + n,
    decreases n,
{
    if n > 0 {
        lemma_run_ticks_elapsed(t, (n - 1) as nat);
        lemma_run_ticks_params(t, (n - 1) as nat);
    }
}

/// From a fresh start, with warnings audible and a lead shorter than the
/// phase, the warning latch is set exactly once the first second of the
/// warning minute has elapsed.
pub proof fn lemma_latch_after(t: PhaseTimer, n: nat)
    requires
        t.wf(),
        t.fresh(),
        t.warn_enabled,
        t.sound_enabled,
        0 < t.warning_lead_minutes < t.duration_minutes,
        n <= t.duration_minutes * 60,
    ensures
        t.run_ticks(n).warn_latch
            <==> n > (t.duration_minutes - t.warning_lead_minutes) * 60,
    decreases n,
{
    if n > 0 {
        let m = (n - 1) as nat;
        lemma_latch_after(t, m);
        lemma_run_ticks_elapsed(t, m);
        lemma_run_ticks_params(t, m);
        lemma_div60_eq(m as int, t.duration_minutes - t.warning_lead_minutes);
    }
}

/// Law: for a phase of `D` minutes with warning lead `W` minutes, warnings
/// and sound enabled and `0 < W < D`, the warning cue fires at exactly one
/// second of the countdown, the first second of elapsed minute `D - W`, and
/// at no other: `play_warning` at the `n`-th elapsed second reports
/// `run_ticks(n).warning_due()`, which holds for `n == (D - W) * 60` alone.
pub proof fn lemma_warning_fires_exactly_once(t: PhaseTimer, n: nat)
    requires
        t.wf(),
        t.fresh(),
        t.warn_enabled,
        t.sound_enabled,
        0 < t.warning_lead_minutes < t.duration_minutes,
        n < t.duration_minutes * 60,
    ensures
        t.run_ticks(n).warning_due()
            <==> n == (t.duration_minutes - t.warning_lead_minutes) * 60,
{
    lemma_run_ticks_elapsed(t, n);
    lemma_run_ticks_params(t, n);
    lemma_latch_after(t, n);
    lemma_div60_eq(n as int, t.duration_minutes - t.warning_lead_minutes);
}

/// Law: a warning lead at least as long as the phase suppresses the warning
/// cue for the whole phase, whatever else holds.
pub proof fn lemma_warning_never_fires(t: PhaseTimer, n: nat)
    requires
        t.warning_lead_minutes >= t.duration_minutes,
    ensures
        !t.run_ticks(n).warning_due(),
{
    lemma_run_ticks_params(t, n);
}

/// Law: a full phase is exactly `duration_minutes * 60` elapsed seconds.
/// From a fresh start the countdown is unfinished after any smaller number
/// of seconds and finished after exactly that many; since every elapsed
/// second advances the display once, the display advances exactly
/// `duration_minutes * 60` times — zero times for a zero-minute phase.
pub proof fn lemma_phase_tick_count(t: PhaseTimer, n: nat)
    requires
        t.wf(),
        t.elapsed_seconds == 0,
        n <= t.duration_minutes * 60,
    ensures
        t.run_ticks(n).elapsed_seconds == n,
        n < t.duration_minutes * 60
            ==> t.run_ticks(n).elapsed_seconds
                != t.run_ticks(n).duration_minutes * 60,
        n == t.duration_minutes * 60
            ==> t.run_ticks(n).elapsed_seconds
                == t.run_ticks(n).duration_minutes * 60,
{
    lemma_run_ticks_elapsed(t, n);
    lemma_run_ticks_params(t, n);
}

/// Law: pausing neither replays nor loses a second. A consumed pause leaves
/// the countdown exactly as it was, so after any mix of elapsed seconds and
/// pauses the timer stands exactly where the elapsed seconds alone put it:
/// pausing right after second `k` keeps the countdown at `k`, and the next
/// elapsed second is `k + 1`.
pub proof fn lemma_pause_preserves_ticks(t: PhaseTimer, evs: Seq<PhaseEvent>)
    ensures
        t.run_events(evs) == t.run_ticks(tick_count(evs)),
    decreases evs.len(),
{
    if evs.len() > 0 {
        lemma_pause_preserves_ticks(t, evs.drop_last());
    }
}

} // verus!
