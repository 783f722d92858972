use pomodoro::timer::{sleep_budget_millis, PhaseEvent, PhaseTimer};

/// Run a phase's countdown to its end with no pauses; count the display
/// advances and record the zero-based seconds at which the warning fired.
fn run_full(timer: &mut PhaseTimer) -> (u64, Vec<u64>) {
    let mut advances: u64 = 0;
    let mut fires: Vec<u64> = Vec::new();
    let mut second: u64 = 0;
    while !timer.finished() {
        let out = timer.on_event(PhaseEvent::TickElapsed);
        if out.advance_display {
            advances += 1;
        }
        if out.play_warning {
            fires.push(second);
        }
        second += 1;
    }
    (advances, fires)
}

#[test]
fn warning_fires_once_at_the_lead_minute() {
    // 10-minute phase, 5-minute lead: the warning fires at the first second
    // of elapsed minute 5, second 300, and never again.
    let mut timer = PhaseTimer::new(10, 5, true, true);
    let (advances, fires) = run_full(&mut timer);
    assert_eq!(advances, 600);
    assert_eq!(fires, vec![300]);
}

#[test]
fn warning_fires_once_for_short_lead() {
    // 2-minute phase, 1-minute lead: fires at second 60 only, although the
    // matching minute spans seconds 60..120 — the latch stops a replay.
    let mut timer = PhaseTimer::new(2, 1, true, true);
    let (advances, fires) = run_full(&mut timer);
    assert_eq!(advances, 120);
    assert_eq!(fires, vec![60]);
}

#[test]
fn warning_never_fires_when_lead_equals_duration() {
    let mut timer = PhaseTimer::new(2, 2, true, true);
    let (_, fires) = run_full(&mut timer);
    assert_eq!(fires, Vec::<u64>::new());
}

#[test]
fn warning_never_fires_when_lead_exceeds_duration() {
    let mut timer = PhaseTimer::new(2, 5, true, true);
    let (_, fires) = run_full(&mut timer);
    assert_eq!(fires, Vec::<u64>::new());
}

#[test]
fn warning_never_fires_with_zero_lead() {
    // A zero lead would place the warning at the very end of the countdown,
    // one past the last second, so it never fires.
    let mut timer = PhaseTimer::new(2, 0, true, true);
    let (_, fires) = run_full(&mut timer);
    assert_eq!(fires, Vec::<u64>::new());
}

#[test]
fn warning_respects_the_toggles() {
    let mut timer = PhaseTimer::new(10, 5, false, true);
    let (_, fires) = run_full(&mut timer);
    assert_eq!(fires, Vec::<u64>::new());

    let mut timer = PhaseTimer::new(10, 5, true, false);
    let (_, fires) = run_full(&mut timer);
    assert_eq!(fires, Vec::<u64>::new());
}

#[test]
fn advance_count_equals_duration_in_seconds() {
    let mut timer = PhaseTimer::new(2, 0, true, true);
    let (advances, _) = run_full(&mut timer);
    assert_eq!(advances, 120);
}

#[test]
fn zero_minute_phase_has_zero_ticks() {
    let mut timer = PhaseTimer::new(0, 5, true, true);
    assert!(timer.finished());
    let (advances, fires) = run_full(&mut timer);
    assert_eq!(advances, 0);
    assert_eq!(fires, Vec::<u64>::new());
}

#[test]
fn duration_seconds_is_sixty_per_minute() {
    let timer = PhaseTimer::new(30, 5, true, true);
    assert_eq!(timer.duration_seconds(), 1800);
    let timer = PhaseTimer::new(0, 5, true, true);
    assert_eq!(timer.duration_seconds(), 0);
}

#[test]
fn pause_neither_replays_nor_skips_a_second() {
    let mut timer = PhaseTimer::new(1, 0, true, true);
    // Let five seconds elapse.
    for _ in 0..5 {
        timer.on_event(PhaseEvent::TickElapsed);
    }
    assert_eq!(timer.elapsed_seconds, 5);
    // A consumed pause leaves the countdown exactly where it was and asks
    // the loop to prompt for resume and re-arm the listener.
    let out = timer.on_event(PhaseEvent::PauseConsumed);
    assert_eq!(timer.elapsed_seconds, 5);
    assert!(!out.advance_display);
    assert!(!out.play_warning);
    assert!(out.prompt_resume);
    assert!(out.rearm_listener);
    // The next elapsed second is number six.
    let out = timer.on_event(PhaseEvent::TickElapsed);
    assert!(out.advance_display);
    assert_eq!(timer.elapsed_seconds, 6);
}

#[test]
fn pause_does_not_disturb_the_warning() {
    // Pauses before, inside and after the warning minute: the warning still
    // fires exactly once, at second 60 of a 2-minute phase with 1-minute lead.
    let mut timer = PhaseTimer::new(2, 1, true, true);
    let mut fires: Vec<u64> = Vec::new();
    let mut second: u64 = 0;
    while !timer.finished() {
        let out = timer.on_event(PhaseEvent::TickElapsed);
        if out.play_warning {
            fires.push(second);
        }
        second += 1;
        if second % 30 == 0 {
            timer.on_event(PhaseEvent::PauseConsumed);
        }
    }
    assert_eq!(second, 120);
    assert_eq!(fires, vec![60]);
}

#[test]
fn sleep_budget_is_the_clamped_remainder_of_one_second() {
    assert_eq!(sleep_budget_millis(0), 1000);
    assert_eq!(sleep_budget_millis(400), 600);
    assert_eq!(sleep_budget_millis(999), 1);
    assert_eq!(sleep_budget_millis(1000), 0);
    // A tick that overran its budget, or a clock anomaly reporting more
    // than a second, clamps to zero instead of underflowing.
    assert_eq!(sleep_budget_millis(5000), 0);
    assert_eq!(sleep_budget_millis(u64::MAX), 0);
}

#[test]
fn tick_outcome_of_an_elapsed_second() {
    let mut timer = PhaseTimer::new(1, 0, true, true);
    let out = timer.on_event(PhaseEvent::TickElapsed);
    assert!(out.advance_display);
    assert!(!out.prompt_resume);
    assert!(!out.rearm_listener);
}
