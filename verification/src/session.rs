//! The session: an unbounded alternation of work rounds and breaks. Every
//! `rounds_before_long_break`-th round earns the long break, all others the
//! short one. The session is a state machine with no terminal state — it
//! runs until the process is killed — and each turn tells the caller whether
//! to block on the confirmation gate and which phase to run next.

use vstd::prelude::*;
use vstd::arithmetic::div_mod::lemma_fundamental_div_mod;
use vstd::arithmetic::div_mod::lemma_mod_bound;
use vstd::arithmetic::div_mod::lemma_mod_multiples_basic;
use vstd::arithmetic::mul::lemma_mul_is_commutative;
use crate::timer::PhaseTimer;

verus! {

/// Minutes before the end of a work or long-break phase at which the
/// warning cue fires.
pub const WARNING_MINS: u64 = 5;

/// Largest phase length, in minutes, whose second count still fits in `u64`.
pub const MAX_PHASE_MINUTES: u64 = u64::MAX / 60;

/// A phase length of at most `MAX_PHASE_MINUTES` minutes is exactly one
/// whose second count fits in `u64`.
proof fn lemma_minutes_bound(m: u64)
    ensures
        (m <= MAX_PHASE_MINUTES) <==> (m * 60 <= u64::MAX),
{
    lemma_fundamental_div_mod(u64::MAX as int, 60);
    lemma_mod_bound(u64::MAX as int, 60);
}

/// The configuration fixed at startup from the parsed arguments.
#[derive(Clone, Copy, PartialEq, Eq, Structural, Debug)]
pub struct SessionConfig {
    pub work_minutes: u64,
    pub short_break_minutes: u64,
    pub long_break_minutes: u64,
    /// Cadence modulus: how many rounds before the long break repeats.
    pub rounds_before_long_break: u64,
    pub warn_enabled: bool,
    pub skip_confirmation: bool,
    pub sound_enabled: bool,
}

/// Which break a round earns.
#[derive(Clone, Copy, PartialEq, Eq, Structural, Debug)]
pub enum BreakKind {
    Short,
    Long,
}

/// The kind of one timed phase.
#[derive(Clone, Copy, PartialEq, Eq, Structural, Debug)]
pub enum PhaseKind {
    Work,
    ShortBreak,
    LongBreak,
}

/// One phase before it runs: its kind, its length and its warning lead,
/// derived from the configuration and the current round index.
#[derive(Clone, Copy, PartialEq, Eq, Structural, Debug)]
pub struct RoundPhase {
    pub kind: PhaseKind,
    pub duration_minutes: u64,
    pub warning_lead_minutes: u64,
}

impl SessionConfig {
    /// The cadence modulus is a modulus, so it must be positive, and every
    /// phase length must fit in `u64` once counted in seconds.
    pub open spec fn wf(self) -> bool {
        &&& self.rounds_before_long_break >= 1
        &&& self.work_minutes * 60 <= u64::MAX
        &&& self.short_break_minutes * 60 <= u64::MAX
        &&& self.long_break_minutes * 60 <= u64::MAX
    }

    /// Build the configuration, rejecting what no session can run with: a
    /// cadence modulus of zero, or a phase length whose second count does
    /// not fit in `u64`.
    pub fn new(
        work_minutes: u64,
        short_break_minutes: u64,
        long_break_minutes: u64,
        rounds_before_long_break: u64,
        warn_enabled: bool,
        skip_confirmation: bool,
        sound_enabled: bool,
    ) -> (r: Option<SessionConfig>)
        ensures
            (r is Some) <==> (rounds_before_long_break >= 1
                && work_minutes * 60 <= u64::MAX
                && short_break_minutes * 60 <= u64::MAX
                && long_break_minutes * 60 <= u64::MAX),
            r matches Some(c) ==> c == (SessionConfig {
                work_minutes,
                short_break_minutes,
                long_break_minutes,
                rounds_before_long_break,
                warn_enabled,
                skip_confirmation,
                sound_enabled,
            }),
            r matches Some(c) ==> c.wf(),
    {
        proof {
            lemma_minutes_bound(work_minutes);
            lemma_minutes_bound(short_break_minutes);
            lemma_minutes_bound(long_break_minutes);
        }
        if rounds_before_long_break >= 1 && work_minutes <= MAX_PHASE_MINUTES
            && short_break_minutes <= MAX_PHASE_MINUTES
            && long_break_minutes <= MAX_PHASE_MINUTES {
            Some(SessionConfig {
                work_minutes,
                short_break_minutes,
                long_break_minutes,
                rounds_before_long_break,
                warn_enabled,
                skip_confirmation,
                sound_enabled,
            })
        } else {
            None
        }
    }

    /// The work phase of any round: the configured work length, with the
    /// fixed warning lead.
    pub fn work_phase(&self) -> (p: RoundPhase)
        requires
            self.wf(),
        ensures
            p.kind is Work,
            p.duration_minutes == self.work_minutes,
            p.warning_lead_minutes == WARNING_MINS,
            p.duration_minutes * 60 <= u64::MAX,
    {
        RoundPhase {
            kind: PhaseKind::Work,
            duration_minutes: self.work_minutes,
            warning_lead_minutes: WARNING_MINS,
        }
    }

    /// The break phase of round `round_index`: on the cadence the long
    /// break, with the fixed warning lead; otherwise the short break, with a
    /// lead of zero, which suppresses the warning by construction.
    pub fn break_phase(&self, round_index: u64) -> (p: RoundPhase)
        requires
            self.wf(),
        ensures
            round_index % self.rounds_before_long_break == 0 ==> (p.kind is LongBreak
                && p.duration_minutes == self.long_break_minutes
                && p.warning_lead_minutes == WARNING_MINS),
            round_index % self.rounds_before_long_break != 0 ==> (p.kind is ShortBreak
                && p.duration_minutes == self.short_break_minutes
                && p.warning_lead_minutes == 0),
            p.duration_minutes * 60 <= u64::MAX,
    {
        match break_kind(round_index, self.rounds_before_long_break) {
            BreakKind::Long => RoundPhase {
                kind: PhaseKind::LongBreak,
                duration_minutes: self.long_break_minutes,
                warning_lead_minutes: WARNING_MINS,
            },
            BreakKind::Short => RoundPhase {
                kind: PhaseKind::ShortBreak,
                duration_minutes: self.short_break_minutes,
                warning_lead_minutes: 0,
            },
        }
    }
}

/// Which break follows work round `round_index`: the long break exactly on
/// the multiples of the cadence modulus.
pub fn break_kind(round_index: u64, rounds_before_long_break: u64) -> (k: BreakKind)
    requires
        rounds_before_long_break >= 1,
    ensures
        (k is Long) <==> round_index % rounds_before_long_break == 0,
{
    if round_index % rounds_before_long_break == 0 {
        BreakKind::Long
    } else {
        BreakKind::Short
    }
}

/// Law: the long-break cadence selects exactly the rounds `r, 2r, 3r, ...`
/// for a cadence modulus of `r`; every other round earns the short break.
pub proof fn lemma_long_break_cadence(i: u64, r: u64)
    requires
        r >= 1,
        i >= 1,
    ensures
        (i % r == 0) <==> (exists|m: int| m >= 1 && i == #[trigger] (r * m)),
{
    if i % r == 0 {
        lemma_fundamental_div_mod(i as int, r as int);
        let q = i as int / r as int;
        assert(i == r * q);
        assert(q >= 1) by (nonlinear_arith)
            requires
                i as int == r as int * q,
                i >= 1,
                r >= 1,
        ;
        assert(exists|m: int| m >= 1 && i == #[trigger] (r * m));
    }
    if exists|m: int| m >= 1 && i == #[trigger] (r * m) {
        let m = choose|m: int| m >= 1 && i == #[trigger] (r * m);
        lemma_mul_is_commutative(r as int, m);
        lemma_mod_multiples_basic(m, r as int);
    }
}

impl RoundPhase {
    /// The timer that runs this phase, with the configured toggles.
    pub fn start(&self, cfg: &SessionConfig) -> (t: PhaseTimer)
        requires
            self.duration_minutes * 60 <= u64::MAX,
        ensures
            t == (PhaseTimer {
                duration_minutes: self.duration_minutes,
                warning_lead_minutes: self.warning_lead_minutes,
                warn_enabled: cfg.warn_enabled,
                sound_enabled: cfg.sound_enabled,
                elapsed_seconds: 0u64,
                warn_latch: false,
            }),
            t.wf(),
            t.fresh(),
    {
        PhaseTimer::new(
            self.duration_minutes,
            self.warning_lead_minutes,
            cfg.warn_enabled,
            cfg.sound_enabled,
        )
    }
}

/// Where the perpetual session stands: waiting for the very first
/// confirmation, about to run a work round, or about to run that round's
/// break. There is no terminal state.
#[derive(Clone, Copy, PartialEq, Eq, Structural, Debug)]
pub enum SessionStage {
    AwaitStart,
    WorkRound,
    BreakRound,
}

/// The session's whole state: its stage and the index of the current round.
/// The index starts at one and grows by one per completed work-break pair.
#[derive(Clone, Copy, PartialEq, Eq, Structural, Debug)]
pub struct SessionState {
    pub stage: SessionStage,
    pub round_index: u64,
}

/// What the session loop must do for one phase: optionally block on the
/// user confirmation gate, then run the phase to completion.
#[derive(Clone, Copy, PartialEq, Eq, Structural, Debug)]
pub struct SessionAction {
    pub confirm_gate: bool,
    pub phase: RoundPhase,
}

impl SessionState {
    /// Round indices start at one; before the first round the index is one.
    pub open spec fn wf(self) -> bool {
        &&& self.round_index >= 1
        &&& (self.stage is AwaitStart ==> self.round_index == 1)
    }

    /// The state before anything has run.
    pub fn initial() -> (s: SessionState)
        ensures
            s.stage is AwaitStart,
            s.round_index == 1,
            s.wf(),
    {
        SessionState { stage: SessionStage::AwaitStart, round_index: 1 }
    }

    /// One turn of the perpetual session. Every phase is preceded by the
    /// confirmation gate unless the configuration skips it. A work phase
    /// always follows, with the fixed warning lead; after it comes the
    /// round's break, long exactly on the cadence, and completing the break
    /// moves the session to the next round.
    pub fn next_action(&mut self, cfg: &SessionConfig) -> (a: SessionAction)
        requires
            old(self).wf(),
            cfg.wf(),
            old(self).stage is BreakRound ==> old(self).round_index < u64::MAX,
        ensures
            final(self).wf(),
            a.confirm_gate == !cfg.skip_confirmation,
            a.phase.duration_minutes * 60 <= u64::MAX,
            (old(self).stage is AwaitStart || old(self).stage is WorkRound) ==> (
                a.phase.kind is Work
                && a.phase.duration_minutes == cfg.work_minutes
                && a.phase.warning_lead_minutes == WARNING_MINS
                && final(self).stage is BreakRound
                && final(self).round_index == old(self).round_index),
            old(self).stage is BreakRound ==> (
                final(self).stage is WorkRound
                && final(self).round_index == old(self).round_index + 1
                && (old(self).round_index % cfg.rounds_before_long_break == 0 ==> (
                    a.phase.kind is LongBreak
                    && a.phase.duration_minutes == cfg.long_break_minutes
                    && a.phase.warning_lead_minutes == WARNING_MINS))
                && (old(self).round_index % cfg.rounds_before_long_break != 0 ==> (
                    a.phase.kind is ShortBreak
                    && a.phase.duration_minutes == cfg.short_break_minutes
                    && a.phase.warning_lead_minutes == 0))),
    {
        match self.stage {
            SessionStage::AwaitStart | SessionStage::WorkRound => {
                let phase = cfg.work_phase();
                self.stage = SessionStage::BreakRound;
                SessionAction { confirm_gate: !cfg.skip_confirmation, phase }
            }
            SessionStage::BreakRound => {
                let phase = cfg.break_phase(self.round_index);
                self.stage = SessionStage::WorkRound;
                self.round_index = self.round_index + 1;
                SessionAction { confirm_gate: !cfg.skip_confirmation, phase }
            }
        }
    }
}

} // verus!
