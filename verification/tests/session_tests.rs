use pomo::hooks::Hooks;
use pomo::session::{
    cycle_plan, hook_for_event, interrupt_action, HookEvent, InterruptAction, Notice, Phase,
    Session, Step, BREAK_SECONDS,
};

#[test]
fn full_cycle_with_music_runs_every_step_in_order() {
    let plan = cycle_plan(1500, false);
    assert_eq!(
        plan,
        vec![
            Step::Announce(Notice::WorkIntro),
            Step::SetPhase(Phase::Work),
            Step::RunHook(HookEvent::WorkStart),
            Step::Countdown(1500),
            Step::RunHook(HookEvent::WorkEnd),
            Step::Pause,
            Step::Alert,
            Step::Announce(Notice::WorkDone),
            Step::Announce(Notice::BreakIntro),
            Step::SetPhase(Phase::Break),
            Step::RunHook(HookEvent::BreakStart),
            Step::Countdown(BREAK_SECONDS),
            Step::RunHook(HookEvent::BreakEnd),
            Step::Pause,
            Step::Alert,
            Step::SetPhase(Phase::Idle),
            Step::Announce(Notice::BreakDone),
        ]
    );
}

#[test]
fn no_music_cycle_skips_hooks_and_alerts() {
    let plan = cycle_plan(90, true);
    assert_eq!(
        plan,
        vec![
            Step::Announce(Notice::WorkIntro),
            Step::SetPhase(Phase::Work),
            Step::Countdown(90),
            Step::Announce(Notice::WorkDone),
            Step::Announce(Notice::BreakIntro),
            Step::SetPhase(Phase::Break),
            Step::Countdown(BREAK_SECONDS),
            Step::SetPhase(Phase::Idle),
            Step::Announce(Notice::BreakDone),
        ]
    );
}

#[test]
fn phases_are_written_in_cycle_order() {
    for no_music in [false, true] {
        let plan = cycle_plan(1500, no_music);
        let phases: Vec<Phase> = plan
            .iter()
            .filter_map(|s| match s {
                Step::SetPhase(p) => Some(*p),
                _ => None,
            })
            .collect();
        assert_eq!(phases, vec![Phase::Work, Phase::Break, Phase::Idle]);
    }
}

#[test]
fn countdown_follows_work_phase_before_break_phase() {
    let plan = cycle_plan(1500, false);
    let work_set = plan
        .iter()
        .position(|s| *s == Step::SetPhase(Phase::Work))
        .unwrap();
    let work_countdown = plan
        .iter()
        .position(|s| *s == Step::Countdown(1500))
        .unwrap();
    let break_set = plan
        .iter()
        .position(|s| *s == Step::SetPhase(Phase::Break))
        .unwrap();
    assert!(work_set < work_countdown);
    assert!(work_countdown < break_set);
}

#[test]
fn session_steps_through_the_whole_plan_once() {
    let mut session = Session::new(90, false);
    let mut steps = Vec::new();
    while let Some(step) = session.next_step() {
        steps.push(step);
    }
    assert_eq!(steps, cycle_plan(90, false));
    assert_eq!(session.next_step(), None);
}

#[test]
fn session_phase_reads_work_during_work_countdown() {
    let mut session = Session::new(1500, false);
    let mut seen_work_countdown = false;
    let mut seen_break_countdown = false;
    while let Some(step) = session.next_step() {
        match step {
            Step::Countdown(1500) => {
                assert_eq!(session.phase, Phase::Work);
                seen_work_countdown = true;
            }
            Step::Countdown(n) => {
                assert_eq!(n, BREAK_SECONDS);
                assert_eq!(session.phase, Phase::Break);
                seen_break_countdown = true;
            }
            _ => {}
        }
    }
    assert!(seen_work_countdown);
    assert!(seen_break_countdown);
    assert_eq!(session.phase, Phase::Idle);
}

#[test]
fn interrupt_in_work_fires_exactly_work_end() {
    assert_eq!(
        interrupt_action(Phase::Work, false),
        InterruptAction::FireHook(HookEvent::WorkEnd)
    );
}

#[test]
fn interrupt_in_break_fires_exactly_break_end() {
    assert_eq!(
        interrupt_action(Phase::Break, false),
        InterruptAction::FireHook(HookEvent::BreakEnd)
    );
}

#[test]
fn interrupt_in_idle_reports_no_hook() {
    assert_eq!(interrupt_action(Phase::Idle, false), InterruptAction::ReportIdle);
    assert_eq!(interrupt_action(Phase::Idle, true), InterruptAction::ReportIdle);
}

#[test]
fn interrupt_with_music_suppressed_is_silent() {
    assert_eq!(interrupt_action(Phase::Work, true), InterruptAction::Silent);
    assert_eq!(interrupt_action(Phase::Break, true), InterruptAction::Silent);
}

#[test]
fn events_select_their_own_hook() {
    let hooks = Hooks {
        work_start: Some("a".to_string()),
        work_end: Some("b".to_string()),
        break_start: None,
        break_end: Some("d".to_string()),
    };
    assert_eq!(
        hook_for_event(&hooks, HookEvent::WorkStart),
        &Some("a".to_string())
    );
    assert_eq!(
        hook_for_event(&hooks, HookEvent::WorkEnd),
        &Some("b".to_string())
    );
    assert_eq!(hook_for_event(&hooks, HookEvent::BreakStart), &None);
    assert_eq!(
        hook_for_event(&hooks, HookEvent::BreakEnd),
        &Some("d".to_string())
    );
}
