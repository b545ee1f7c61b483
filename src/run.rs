use vstd::prelude::*;

verus! {

/// Where a run's write phase stands.
#[derive(Debug, Clone, Copy, PartialEq, Eq, Structural)]
pub enum Stage {
    ConfirmPending,
    PatchingBoot,
    UpdatingDesired,
    ShuttingDown,
    Starting,
    Done,
    Declined,
    Failed,
}

/// What the operator or a backend answered to the last action.
#[derive(Debug, Clone, Copy, PartialEq, Eq, Structural)]
pub enum Event {
    /// The operator's answer to the confirmation prompt.
    Confirmed(bool),
    /// The backend call succeeded.
    Succeeded,
    /// The backend call failed.
    UpstreamFailed,
}

/// What the caller must do next.
#[derive(Debug, Clone, Copy, PartialEq, Eq, Structural)]
pub enum Action {
    /// Ask the operator to confirm the reboot of the node set.
    AskConfirmation,
    /// Write the planned boot parameters.
    PatchBootParameters,
    /// Set the desired configuration, applied at once or after the reboot.
    SetDesiredConfiguration { apply_now: bool },
    /// Shut the node set down and wait until it is off.
    PowerOff,
    /// Start the node set, without waiting.
    PowerOn,
    /// End the run with this exit code.
    Exit { code: i32 },
}

/// The two facts of a plan that the write phase depends on.
#[derive(Debug, Clone, Copy, PartialEq, Eq, Structural)]
pub struct WritePlan {
    /// The boot image changes: boot parameters are patched and nodes restarted.
    pub needs_restart: bool,
    /// A desired configuration was requested.
    pub has_desired: bool,
}

/// Kind of a power operation.
#[derive(Debug, Clone, Copy, PartialEq, Eq, Structural)]
pub enum PowerKind {
    Shutdown,
    Start,
}

/// A power operation on the run's node set.
#[derive(Debug, Clone, Copy, PartialEq, Eq, Structural)]
pub struct PowerOperation {
    pub kind: PowerKind,
    /// The caller waits for the operation to complete.
    pub synchronous: bool,
}

/// The power operation that an action asks for: a shutdown that is waited
/// for, or a start that is not.
pub fn power_operation(action: Action) -> (r: Option<PowerOperation>)
    ensures
        action == Action::PowerOff ==> r == Some(PowerOperation { kind: PowerKind::Shutdown, synchronous: true }),
        action == Action::PowerOn ==> r == Some(PowerOperation { kind: PowerKind::Start, synchronous: false }),
        action != Action::PowerOff && action != Action::PowerOn ==> r is None,
{
    match action {
        Action::PowerOff => Some(PowerOperation { kind: PowerKind::Shutdown, synchronous: true }),
        Action::PowerOn => Some(PowerOperation { kind: PowerKind::Start, synchronous: false }),
        _ => None,
    }
}

/// The write plan of a run: it restarts when the boot planner said so, and
/// sets a desired configuration when one was requested.
pub fn write_plan(needs_restart: Option<bool>, desired_configuration: &Option<String>) -> (r: WritePlan)
    ensures
        r.needs_restart == (needs_restart == Some(true)),
        r.has_desired == desired_configuration is Some,
{
    let restart = match needs_restart {
        Some(b) => b,
        None => false,
    };
    WritePlan { needs_restart: restart, has_desired: desired_configuration.is_some() }
}

/// The action that writes a call to a backend.
pub open spec fn is_write(a: Action) -> bool {
    match a {
        Action::PatchBootParameters => true,
        Action::SetDesiredConfiguration { .. } => true,
        Action::PowerOff => true,
        Action::PowerOn => true,
        _ => false,
    }
}

/// First stage and action of a run's write phase.
pub open spec fn initial(p: WritePlan) -> (Stage, Action) {
    if p.needs_restart {
        (Stage::ConfirmPending, Action::AskConfirmation)
    } else if p.has_desired {
        (Stage::UpdatingDesired, Action::SetDesiredConfiguration { apply_now: true })
    } else {
        (Stage::Done, Action::Exit { code: 0 })
    }
}

/// Exit code of a terminal stage.
pub open spec fn exit_code_of(s: Stage) -> i32 {
    if s == Stage::Failed { 1 } else { 0 }
}

/// Stage `s` ends the run.
pub open spec fn is_terminal(s: Stage) -> bool {
    s == Stage::Done || s == Stage::Declined || s == Stage::Failed
}

/// Next stage and action, from stage `s` on event `e`.
pub open spec fn transition(p: WritePlan, s: Stage, e: Event) -> (Stage, Action) {
    let fail = (Stage::Failed, Action::Exit { code: 1 });
    if is_terminal(s) {
        (s, Action::Exit { code: exit_code_of(s) })
    } else {
        match s {
            Stage::ConfirmPending => match e {
                Event::Confirmed(true) => (Stage::PatchingBoot, Action::PatchBootParameters),
                Event::Confirmed(false) => (Stage::Declined, Action::Exit { code: 0 }),
                _ => fail,
            },
            Stage::PatchingBoot => match e {
                Event::Succeeded => if p.has_desired {
                    (Stage::UpdatingDesired, Action::SetDesiredConfiguration { apply_now: !p.needs_restart })
                } else {
                    (Stage::ShuttingDown, Action::PowerOff)
                },
                _ => fail,
            },
            Stage::UpdatingDesired => match e {
                Event::Succeeded => if p.needs_restart {
                    (Stage::ShuttingDown, Action::PowerOff)
                } else {
                    (Stage::Done, Action::Exit { code: 0 })
                },
                _ => fail,
            },
            Stage::ShuttingDown => match e {
                Event::Succeeded => (Stage::Starting, Action::PowerOn),
                _ => fail,
            },
            _ => match e {
                Event::Succeeded => (Stage::Done, Action::Exit { code: 0 }),
                _ => fail,
            },
        }
    }
}

/// Starts a run's write phase: confirmation first when the nodes restart.
pub fn begin(plan: WritePlan) -> (r: (Stage, Action))
    ensures
        r == initial(plan),
{
    if plan.needs_restart {
        (Stage::ConfirmPending, Action::AskConfirmation)
    } else if plan.has_desired {
        (Stage::UpdatingDesired, Action::SetDesiredConfiguration { apply_now: true })
    } else {
        (Stage::Done, Action::Exit { code: 0 })
    }
}

/// Advances a run's write phase by one event.
pub fn step(plan: WritePlan, stage: Stage, event: Event) -> (r: (Stage, Action))
    ensures
        r == transition(plan, stage, event),
{
    match stage {
        Stage::Done => (Stage::Done, Action::Exit { code: 0 }),
        Stage::Declined => (Stage::Declined, Action::Exit { code: 0 }),
        Stage::Failed => (Stage::Failed, Action::Exit { code: 1 }),
        Stage::ConfirmPending => match event {
            Event::Confirmed(true) => (Stage::PatchingBoot, Action::PatchBootParameters),
            Event::Confirmed(false) => (Stage::Declined, Action::Exit { code: 0 }),
            _ => (Stage::Failed, Action::Exit { code: 1 }),
        },
        Stage::PatchingBoot => match event {
            Event::Succeeded => if plan.has_desired {
                (Stage::UpdatingDesired, Action::SetDesiredConfiguration { apply_now: !plan.needs_restart })
            } else {
                (Stage::ShuttingDown, Action::PowerOff)
            },
            _ => (Stage::Failed, Action::Exit { code: 1 }),
        },
        Stage::UpdatingDesired => match event {
            Event::Succeeded => if plan.needs_restart {
                (Stage::ShuttingDown, Action::PowerOff)
            } else {
                (Stage::Done, Action::Exit { code: 0 })
            },
            _ => (Stage::Failed, Action::Exit { code: 1 }),
        },
        Stage::ShuttingDown => match event {
            Event::Succeeded => (Stage::Starting, Action::PowerOn),
            _ => (Stage::Failed, Action::Exit { code: 1 }),
        },
        Stage::Starting => match event {
            Event::Succeeded => (Stage::Done, Action::Exit { code: 0 }),
            _ => (Stage::Failed, Action::Exit { code: 1 }),
        },
    }
}

/// Stage reached from `s` after the events `es`, one after the other.
pub open spec fn stage_after(p: WritePlan, s: Stage, es: Seq<Event>) -> Stage
    decreases es.len(),
{
    if es.len() == 0 {
        s
    } else {
        stage_after(p, transition(p, s, es[0]).0, es.drop_first())
    }
}

/// Actions issued from `s` on the events `es`, one for each event.
pub open spec fn actions_after(p: WritePlan, s: Stage, es: Seq<Event>) -> Seq<Action>
    decreases es.len(),
{
    if es.len() == 0 {
        Seq::empty()
    } else {
        let t = transition(p, s, es[0]);
        seq![t.1] + actions_after(p, t.0, es.drop_first())
    }
}

/// All actions of a run: the first one, then one for each event.
pub open spec fn run_actions(p: WritePlan, es: Seq<Event>) -> Seq<Action> {
    seq![initial(p).1] + actions_after(p, initial(p).0, es)
}

/// Every desired-configuration write applies at once exactly when the nodes
/// do not restart.
pub proof fn lemma_apply_now_negates_restart(p: WritePlan, s: Stage, e: Event)
    ensures
        initial(p).1 is SetDesiredConfiguration ==> initial(p).1->apply_now == !p.needs_restart,
        transition(p, s, e).1 is SetDesiredConfiguration
            ==> transition(p, s, e).1->apply_now == !p.needs_restart,
{
}

/// A start is only issued on a successful answer to the shutdown of the same
/// node set, and the shutdown stage is only entered by issuing that shutdown.
pub proof fn lemma_start_follows_shutdown(p: WritePlan, s: Stage, e: Event)
    ensures
        transition(p, s, e).1 == Action::PowerOn ==> s == Stage::ShuttingDown && e == Event::Succeeded,
        initial(p).1 != Action::PowerOn,
        transition(p, s, e).0 == Stage::ShuttingDown && s != Stage::ShuttingDown
            ==> transition(p, s, e).1 == Action::PowerOff,
        initial(p).0 != Stage::ShuttingDown,
{
}

proof fn lemma_terminal_stays(p: WritePlan, s: Stage, es: Seq<Event>)
    requires
        is_terminal(s),
    ensures
        forall|k: int| 0 <= k < es.len() ==> #[trigger] actions_after(p, s, es)[k]
            == (Action::Exit { code: exit_code_of(s) }),
        actions_after(p, s, es).len() == es.len(),
    decreases es.len(),
{
    if es.len() > 0 {
        lemma_terminal_stays(p, s, es.drop_first());
    }
}

/// When the operator declines the confirmation, the run issues no write to
/// any backend and ends with exit code 0.
pub proof fn lemma_decline_writes_nothing(p: WritePlan, es: Seq<Event>)
    requires
        p.needs_restart,
        es.len() > 0,
        es[0] == Event::Confirmed(false),
    ensures
        forall|k: int| 0 <= k < run_actions(p, es).len() ==> !is_write(#[trigger] run_actions(p, es)[k]),
        forall|k: int| 1 <= k < run_actions(p, es).len() ==> #[trigger] run_actions(p, es)[k]
            == (Action::Exit { code: 0 }),
        stage_after(p, initial(p).0, es) == Stage::Declined,
{
    lemma_terminal_stays(p, Stage::Declined, es.drop_first());
    lemma_stage_terminal(p, Stage::Declined, es.drop_first());
    let rest = actions_after(p, Stage::Declined, es.drop_first());
    assert(run_actions(p, es) =~= seq![Action::AskConfirmation, Action::Exit { code: 0 }] + rest);
    assert forall|k: int| 1 <= k < run_actions(p, es).len() implies #[trigger] run_actions(p, es)[k]
        == Action::Exit { code: 0 } by {
        if k >= 2 {
            assert(run_actions(p, es)[k] == rest[k - 2]);
        }
    }
}

proof fn lemma_stage_terminal(p: WritePlan, s: Stage, es: Seq<Event>)
    requires
        is_terminal(s),
    ensures
        stage_after(p, s, es) == s,
    decreases es.len(),
{
    if es.len() > 0 {
        lemma_stage_terminal(p, s, es.drop_first());
    }
}

} // verus!
