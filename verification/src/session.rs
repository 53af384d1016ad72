//! The session state machine: the phase value shared with the interruption
//! handler, the exact step sequence of one work-plus-break cycle, and the
//! hook dispatched when an interrupt arrives.

use crate::hooks::Hooks;
use vstd::prelude::*;

verus! {

/// What the session is currently doing.
#[derive(Debug, Clone, Copy, PartialEq, Eq, Structural)]
pub enum Phase {
    Idle,
    Work,
    Break,
}

/// The four phase-transition events a hook can be attached to.
#[derive(Debug, Clone, Copy, PartialEq, Eq, Structural)]
pub enum HookEvent {
    WorkStart,
    WorkEnd,
    BreakStart,
    BreakEnd,
}

/// The human-readable messages the session emits, in order.
#[derive(Debug, Clone, Copy, PartialEq, Eq, Structural)]
pub enum Notice {
    WorkIntro,
    WorkDone,
    BreakIntro,
    BreakDone,
}

/// One step of a session: everything the driver does, in order. The driver
/// performs each step's outside effect; which steps happen, and in what
/// order, is decided here.
#[derive(Debug, Clone, Copy, PartialEq, Eq, Structural)]
pub enum Step {
    /// Print the message.
    Announce(Notice),
    /// Write the shared phase value, the only mutation the handler can see.
    SetPhase(Phase),
    /// Fire the event's hook without waiting for it.
    RunHook(HookEvent),
    /// Run the countdown display for this many seconds.
    Countdown(u64),
    /// Wait briefly so an end hook can take effect before the alert.
    Pause,
    /// Play the end-of-phase alert and wait for it.
    Alert,
}

/// The break is always five minutes; only the work length is configurable.
pub const BREAK_SECONDS: u64 = 300;

/// The step sequence of one full cycle. With hooks and alerts suppressed,
/// only the announcements, phase writes and countdowns remain.
pub open spec fn cycle_plan_spec(work_seconds: u64, no_music: bool) -> Seq<Step> {
    if no_music {
        seq![
            Step::Announce(Notice::WorkIntro),
            Step::SetPhase(Phase::Work),
            Step::Countdown(work_seconds),
            Step::Announce(Notice::WorkDone),
            Step::Announce(Notice::BreakIntro),
            Step::SetPhase(Phase::Break),
            Step::Countdown(BREAK_SECONDS),
            Step::SetPhase(Phase::Idle),
            Step::Announce(Notice::BreakDone),
        ]
    } else {
        seq![
            Step::Announce(Notice::WorkIntro),
            Step::SetPhase(Phase::Work),
            Step::RunHook(HookEvent::WorkStart),
            Step::Countdown(work_seconds),
            Step::RunHook(HookEvent::WorkEnd),
            Step::Pause,
            Step::Alert,
            Step::Announce(Notice::WorkDone),
            Step::Announce(Notice::BreakIntro),
            Step::SetPhase(Phase::Break),
            Step::RunHook(HookEvent::BreakStart),
            Step::Countdown(BREAK_SECONDS),
            Step::RunHook(HookEvent::BreakEnd),
            Step::Pause,
            Step::Alert,
            Step::SetPhase(Phase::Idle),
            Step::Announce(Notice::BreakDone),
        ]
    }
}

/// Build the cycle's step sequence, exactly as `cycle_plan_spec` says.
pub fn cycle_plan(work_seconds: u64, no_music: bool) -> (r: Vec<Step>)
    ensures
        r@ == cycle_plan_spec(work_seconds, no_music),
{
    let mut v: Vec<Step> = Vec::new();
    v.push(Step::Announce(Notice::WorkIntro));
    v.push(Step::SetPhase(Phase::Work));
    if !no_music {
        v.push(Step::RunHook(HookEvent::WorkStart));
    }
    v.push(Step::Countdown(work_seconds));
    if !no_music {
        v.push(Step::RunHook(HookEvent::WorkEnd));
        v.push(Step::Pause);
        v.push(Step::Alert);
    }
    v.push(Step::Announce(Notice::WorkDone));
    v.push(Step::Announce(Notice::BreakIntro));
    v.push(Step::SetPhase(Phase::Break));
    if !no_music {
        v.push(Step::RunHook(HookEvent::BreakStart));
    }
    v.push(Step::Countdown(BREAK_SECONDS));
    if !no_music {
        v.push(Step::RunHook(HookEvent::BreakEnd));
        v.push(Step::Pause);
        v.push(Step::Alert);
    }
    v.push(Step::SetPhase(Phase::Idle));
    v.push(Step::Announce(Notice::BreakDone));
    proof {
        assert(v@ =~= cycle_plan_spec(work_seconds, no_music));
    }
    v
}

/// The phase values a plan writes, in order.
pub open spec fn phase_writes(plan: Seq<Step>) -> Seq<Phase>
    decreases plan.len(),
{
    if plan.len() == 0 {
        Seq::<Phase>::empty()
    } else {
        match plan[0] {
            Step::SetPhase(p) => seq![p] + phase_writes(plan.drop_first()),
            _ => phase_writes(plan.drop_first()),
        }
    }
}

/// The one legal order of phases: Idle to Work, Work to Break, Break to Idle.
pub open spec fn valid_transition(from: Phase, to: Phase) -> bool {
    (from == Phase::Idle && to == Phase::Work) || (from == Phase::Work && to == Phase::Break) || (
    from == Phase::Break && to == Phase::Idle)
}

/// One full cycle writes exactly Work, Break, Idle, in that order, and each
/// write is a legal transition from the phase before it, starting from Idle —
/// whatever the work length and whether or not hooks are suppressed.
pub proof fn lemma_cycle_phase_order(work_seconds: u64, no_music: bool)
    ensures
        phase_writes(cycle_plan_spec(work_seconds, no_music)) =~= seq![
            Phase::Work,
            Phase::Break,
            Phase::Idle,
        ],
        valid_transition(Phase::Idle, Phase::Work),
        valid_transition(Phase::Work, Phase::Break),
        valid_transition(Phase::Break, Phase::Idle),
{
    reveal_with_fuel(phase_writes, 20);
    let plan = cycle_plan_spec(work_seconds, no_music);
    if no_music {
        assert(phase_writes(plan) =~= seq![Phase::Work, Phase::Break, Phase::Idle]);
    } else {
        assert(phase_writes(plan) =~= seq![Phase::Work, Phase::Break, Phase::Idle]);
    }
}

/// The phase the shared cell holds once the first `pos` steps of a plan have
/// run: the last phase written, `Idle` before any write.
pub open spec fn phase_after(plan: Seq<Step>, pos: int) -> Phase
    decreases pos,
{
    if pos <= 0 || pos > plan.len() {
        Phase::Idle
    } else {
        match plan[pos - 1] {
            Step::SetPhase(p) => p,
            _ => phase_after(plan, pos - 1),
        }
    }
}

/// The session's driver state: the plan, how far it has run, and the phase
/// value the shared cell holds at this point. The driver performs each step's
/// outside effect; the order, and the phase the interruption handler can
/// observe at each step, are pinned here.
pub struct Session {
    pub plan: Vec<Step>,
    pub pos: usize,
    pub phase: Phase,
}

impl Session {
    /// The position never passes the plan, and the phase is always exactly
    /// the last one written.
    pub open spec fn wf(self) -> bool {
        self.pos <= self.plan@.len() && self.phase == phase_after(self.plan@, self.pos as int)
    }

    /// A fresh session for one cycle, idle, with nothing run yet.
    pub fn new(work_seconds: u64, no_music: bool) -> (r: Self)
        ensures
            r.wf(),
            r.plan@ == cycle_plan_spec(work_seconds, no_music),
            r.pos == 0,
            r.phase == Phase::Idle,
    {
        Session { plan: cycle_plan(work_seconds, no_music), pos: 0, phase: Phase::Idle }
    }

    /// The next step to perform, advancing the session past it; `None` once
    /// the cycle is complete. A phase-write step moves the tracked phase.
    pub fn next_step(&mut self) -> (r: Option<Step>)
        requires
            old(self).wf(),
        ensures
            final(self).wf(),
            final(self).plan == old(self).plan,
            match r {
                Option::Some(step) => {
                    &&& old(self).pos < old(self).plan@.len()
                    &&& step == old(self).plan@[old(self).pos as int]
                    &&& final(self).pos == old(self).pos + 1
                    &&& final(self).phase == (match step {
                        Step::SetPhase(p) => p,
                        _ => old(self).phase,
                    })
                },
                Option::None => {
                    &&& old(self).pos == old(self).plan@.len()
                    &&& final(self).pos == old(self).pos
                    &&& final(self).phase == old(self).phase
                },
            },
    {
        if self.pos < self.plan.len() {
            let step = self.plan[self.pos];
            self.pos = self.pos + 1;
            if let Step::SetPhase(p) = step {
                self.phase = p;
            }
            Option::Some(step)
        } else {
            Option::None
        }
    }
}

/// While either countdown runs, the shared phase reads exactly that phase:
/// `Work` through the whole work countdown, `Break` through the whole break
/// countdown — never a stale or future value.
pub proof fn lemma_phase_during_countdowns(work_seconds: u64, no_music: bool)
    ensures
        ({
            let plan = cycle_plan_spec(work_seconds, no_music);
            if no_music {
                plan[2] is Countdown && phase_after(plan, 2) == Phase::Work && plan[6] is Countdown
                    && phase_after(plan, 6) == Phase::Break
            } else {
                plan[3] is Countdown && phase_after(plan, 3) == Phase::Work && plan[11] is Countdown
                    && phase_after(plan, 11) == Phase::Break
            }
        }),
{
    reveal_with_fuel(phase_after, 20);
}

/// What the interruption handler does after reading the shared phase.
#[derive(Debug, Clone, Copy, PartialEq, Eq, Structural)]
pub enum InterruptAction {
    /// Fire exactly this event's hook, then terminate.
    FireHook(HookEvent),
    /// Report that no hook applies in the idle phase, then terminate.
    ReportIdle,
    /// Hooks are suppressed: terminate with no hook and no report.
    Silent,
}

/// Decide the interrupt dispatch from the phase read under the lock: the work
/// phase owes exactly the work-end hook, the break phase exactly the
/// break-end hook, the idle phase none.
pub fn interrupt_action(phase: Phase, no_music: bool) -> (r: InterruptAction)
    ensures
        phase == Phase::Idle ==> r == InterruptAction::ReportIdle,
        phase == Phase::Work && !no_music ==> r == InterruptAction::FireHook(HookEvent::WorkEnd),
        phase == Phase::Break && !no_music ==> r == InterruptAction::FireHook(HookEvent::BreakEnd),
        phase != Phase::Idle && no_music ==> r == InterruptAction::Silent,
{
    match phase {
        Phase::Idle => InterruptAction::ReportIdle,
        Phase::Work => if no_music {
            InterruptAction::Silent
        } else {
            InterruptAction::FireHook(HookEvent::WorkEnd)
        },
        Phase::Break => if no_music {
            InterruptAction::Silent
        } else {
            InterruptAction::FireHook(HookEvent::BreakEnd)
        },
    }
}

/// The hook command configured for an event.
pub fn hook_for_event<'a>(hooks: &'a Hooks, event: HookEvent) -> (r: &'a Option<String>)
    ensures
        event == HookEvent::WorkStart ==> *r == hooks.work_start,
        event == HookEvent::WorkEnd ==> *r == hooks.work_end,
        event == HookEvent::BreakStart ==> *r == hooks.break_start,
        event == HookEvent::BreakEnd ==> *r == hooks.break_end,
{
    match event {
        HookEvent::WorkStart => &hooks.work_start,
        HookEvent::WorkEnd => &hooks.work_end,
        HookEvent::BreakStart => &hooks.break_start,
        HookEvent::BreakEnd => &hooks.break_end,
    }
}

} // verus!
