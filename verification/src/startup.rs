//! The start-up sequence.
//!
//! Start-up alternates between work on the hardware and decisions about what
//! to do next. The decisions are [`advance`]: it is given the step that was
//! just carried out and how that went, and answers with the step to carry
//! out next. Whoever has the hardware runs the loop. [`init`] runs it
//! against a [`ResourceBroker`], and its contract says which steps are taken
//! and what comes out for every state the broker can be in.

use vstd::prelude::*;
use crate::broker::{AcquireError, Bundle, ResourceBroker};
use crate::hardware::{RegisterBlock, TraceUnit, DIAGNOSTICS_BASE, TRACE_UNIT_BASE};

verus! {

/// One step of start-up.
#[derive(Clone, Copy, Debug, PartialEq, Eq, Structural)]
pub enum Action {
    /// Acquire the core bundle.
    AcquireCore,
    /// Acquire the device bundle.
    AcquireDevice,
    /// Constrain the clock controller of the device bundle into a clock
    /// configuration.
    ConstrainClock,
    /// Split the indicator bank into its pins, under the bus domain of the
    /// clock configuration.
    SplitIndicatorBank,
    /// Hand the pins over to the indicator outputs, which set them up.
    DelegateIndicators,
    /// Derive the reference to the diagnostics register block from its
    /// fixed address.
    ExposeDiagnostics,
    /// Return the trace-output unit and the diagnostics reference to the
    /// caller. Start-up is over.
    Finish,
    /// Signal a fault, which hands control to the fault handler for good.
    /// Start-up is over.
    Trap,
}

/// The steps of a start-up in which nothing fails, in order.
pub open spec fn script() -> Seq<Action> {
    seq![
        Action::AcquireCore,
        Action::AcquireDevice,
        Action::ConstrainClock,
        Action::SplitIndicatorBank,
        Action::DelegateIndicators,
        Action::ExposeDiagnostics,
        Action::Finish,
    ]
}

/// The step that follows `action` when `action` went well (`completed`) or
/// failed. No step follows the two that end start-up. After any other step
/// a failure leads to the trap, and success to the step that comes next in
/// the script.
pub open spec fn next_action(action: Action, completed: bool) -> Option<Action> {
    if action == Action::Finish || action == Action::Trap {
        None
    } else if !completed {
        Some(Action::Trap)
    } else {
        Some(script()[script().index_of(action) + 1])
    }
}

/// Where each step stands in the script.
proof fn lemma_script_positions()
    ensures
        script().index_of(Action::AcquireCore) == 0,
        script().index_of(Action::AcquireDevice) == 1,
        script().index_of(Action::ConstrainClock) == 2,
        script().index_of(Action::SplitIndicatorBank) == 3,
        script().index_of(Action::DelegateIndicators) == 4,
        script().index_of(Action::ExposeDiagnostics) == 5,
        script().index_of(Action::Finish) == 6,
{
    assert(script()[0] == Action::AcquireCore);
    assert(script()[1] == Action::AcquireDevice);
    assert(script()[2] == Action::ConstrainClock);
    assert(script()[3] == Action::SplitIndicatorBank);
    assert(script()[4] == Action::DelegateIndicators);
    assert(script()[5] == Action::ExposeDiagnostics);
    assert(script()[6] == Action::Finish);
}

/// How many steps start-up can still take when `action` is the next one.
pub open spec fn steps_left(action: Action) -> nat {
    match action {
        Action::AcquireCore => 7,
        Action::AcquireDevice => 6,
        Action::ConstrainClock => 5,
        Action::SplitIndicatorBank => 4,
        Action::DelegateIndicators => 3,
        Action::ExposeDiagnostics => 2,
        Action::Finish => 1,
        Action::Trap => 0,
    }
}

/// The steps that start-up takes from `action` on, where each step goes
/// well exactly if `goes_well` says so: `action`, and then whatever follows
/// it by [`next_action`], until nothing follows.
pub open spec fn run_from(action: Action, goes_well: spec_fn(Action) -> bool) -> Seq<Action>
    decreases steps_left(action),
    via run_from_ends
{
    match next_action(action, goes_well(action)) {
        Some(next) => seq![action] + run_from(next, goes_well),
        None => seq![action],
    }
}

#[via_fn]
proof fn run_from_ends(action: Action, goes_well: spec_fn(Action) -> bool) {
    lemma_script_positions();
}

/// The step with which start-up begins.
pub fn first_action() -> (action: Action)
    ensures
        action == Action::AcquireCore,
{
    Action::AcquireCore
}

/// Decides what to do after `action` has been carried out with `outcome`.
/// `None` says that start-up is over.
pub fn advance(action: Action, outcome: Result<(), AcquireError>) -> (next: Option<Action>)
    ensures
        next == next_action(action, outcome is Ok),
{
    proof {
        lemma_script_positions();
    }
    let completed = outcome.is_ok();
    match action {
        Action::Finish | Action::Trap => None,
        _ if !completed => Some(Action::Trap),
        Action::AcquireCore => Some(Action::AcquireDevice),
        Action::AcquireDevice => Some(Action::ConstrainClock),
        Action::ConstrainClock => Some(Action::SplitIndicatorBank),
        Action::SplitIndicatorBank => Some(Action::DelegateIndicators),
        Action::DelegateIndicators => Some(Action::ExposeDiagnostics),
        Action::ExposeDiagnostics => Some(Action::Finish),
    }
}

/// What a run of start-up did and what came of it.
#[derive(Debug, PartialEq, Eq)]
pub struct Startup {
    /// The steps that were taken, in order.
    pub steps: Vec<Action>,
    /// The trace-output unit and the reference to the diagnostics register
    /// block, or the reason for which start-up ended in the trap.
    pub outcome: Result<(TraceUnit, RegisterBlock), AcquireError>,
}

/// A run of start-up as plain values: the steps, and the addresses to which
/// the two handles resolve or the reason for which there are none.
pub struct StartupView {
    pub steps: Seq<Action>,
    pub outcome: Result<(usize, usize), AcquireError>,
}

impl View for Startup {
    type V = StartupView;

    open spec fn view(&self) -> StartupView {
        StartupView {
            steps: self.steps@,
            outcome: match self.outcome {
                Ok((unit, block)) => Ok((unit.address(), block.address())),
                Err(error) => Err(error),
            },
        }
    }
}

/// The steps of start-up in a program in which `taken` have been handed out
/// before: the script, cut short by the trap right after the first
/// acquisition that is refused.
pub open spec fn init_steps(taken: Set<Bundle>) -> Seq<Action> {
    if taken.contains(Bundle::Core) {
        seq![Action::AcquireCore, Action::Trap]
    } else if taken.contains(Bundle::Device) {
        seq![Action::AcquireCore, Action::AcquireDevice, Action::Trap]
    } else {
        script()
    }
}

/// The bundles that are taken after start-up in a program in which `taken`
/// have been handed out before. The device bundle is only asked for once
/// the core bundle has been granted.
pub open spec fn init_taken(taken: Set<Bundle>) -> Set<Bundle> {
    if taken.contains(Bundle::Core) {
        taken
    } else {
        taken.insert(Bundle::Core).insert(Bundle::Device)
    }
}

/// The run of start-up in a program in which `taken` have been handed out
/// before. It succeeds exactly if neither bundle was taken, and then the
/// handles resolve to the two fixed addresses.
pub open spec fn init_run(taken: Set<Bundle>) -> StartupView {
    StartupView {
        steps: init_steps(taken),
        outcome: if !taken.contains(Bundle::Core) && !taken.contains(Bundle::Device) {
            Ok((TRACE_UNIT_BASE, DIAGNOSTICS_BASE))
        } else {
            Err(AcquireError::AlreadyAcquired)
        },
    }
}

/// What holds when `action` is about to be carried out: the steps taken so
/// far, and the state of the broker.
spec fn on_course(
    taken: Set<Bundle>,
    action: Action,
    steps: Seq<Action>,
    now: Set<Bundle>,
) -> bool {
    if action == Action::Trap {
        &&& steps.push(Action::Trap) == init_steps(taken)
        &&& now == init_taken(taken)
        &&& taken.contains(Bundle::Core) || taken.contains(Bundle::Device)
    } else {
        &&& steps == script().take(7 - steps_left(action))
        &&& action != Action::AcquireCore ==> !taken.contains(Bundle::Core)
        &&& now == if action == Action::AcquireCore {
            taken
        } else if action == Action::AcquireDevice {
            taken.insert(Bundle::Core)
        } else {
            taken.insert(Bundle::Core).insert(Bundle::Device)
        }
        &&& steps_left(action) < 6 ==> !taken.contains(Bundle::Device)
    }
}

/// Runs start-up against `broker`: acquires the core bundle and then the
/// device bundle, goes through the remaining steps of the script, and
/// returns the trace-output unit of the core bundle together with the
/// reference to the diagnostics register block. If either bundle has been
/// handed out before, start-up ends in the trap right after the acquisition
/// that was refused, and nothing is returned but the reason.
pub fn init(broker: &mut ResourceBroker) -> (run: Startup)
    ensures
        run@ == init_run(old(broker)@),
        final(broker)@ == init_taken(old(broker)@),
{
    let ghost taken = broker@;
    let mut steps: Vec<Action> = Vec::new();
    let mut action = first_action();
    let mut unit: Option<TraceUnit> = None;
    let mut block: Option<RegisterBlock> = None;
    proof {
        lemma_script_positions();
        assert(steps@ =~= script().take(0));
    }
    loop
        invariant_except_break
            on_course(taken, action, steps@, broker@),
            action != Action::AcquireCore && action != Action::Trap ==> unit is Some,
            unit matches Some(held) ==> held.address() == TRACE_UNIT_BASE,
            action == Action::Finish ==> block is Some,
            block matches Some(found) ==> found.address() == DIAGNOSTICS_BASE,
        ensures
            steps@ == init_steps(taken),
            broker@ == init_taken(taken),
            action == Action::Finish || action == Action::Trap,
            action == Action::Finish <==> !taken.contains(Bundle::Core) && !taken.contains(
                Bundle::Device,
            ),
            action == Action::Finish ==> unit is Some && block is Some,
            unit matches Some(held) ==> held.address() == TRACE_UNIT_BASE,
            block matches Some(found) ==> found.address() == DIAGNOSTICS_BASE,
        decreases steps_left(action),
    {
        steps.push(action);
        let outcome: Result<(), AcquireError> = match action {
            Action::AcquireCore => match broker.acquire_core() {
                Ok(bundle) => {
                    unit = Some(bundle.trace_unit);
                    Ok(())
                },
                Err(error) => Err(error),
            },
            Action::AcquireDevice => match broker.acquire_device() {
                Ok(_) => Ok(()),
                Err(error) => Err(error),
            },
            Action::ExposeDiagnostics => {
                block = Some(RegisterBlock::diagnostics());
                Ok(())
            },
            _ => Ok(()),
        };
        proof {
            lemma_script_positions();
            if action != Action::Trap {
                let at = 7 - steps_left(action);
                assert(steps@ =~= script().take(at + 1));
                assert(script().take(7) =~= script());
                if outcome is Err {
                    assert(steps@.push(Action::Trap) =~= init_steps(taken));
                }
                assert(taken.contains(Bundle::Core) ==> taken.insert(Bundle::Core) =~= taken);
                assert(taken.contains(Bundle::Device) ==> taken.insert(Bundle::Core).insert(
                    Bundle::Device,
                ) =~= taken.insert(Bundle::Core));
            }
        }
        match advance(action, outcome) {
            Some(next) => {
                action = next;
            },
            None => {
                break ;
            },
        }
    }
    let outcome = match (action, unit, block) {
        (Action::Finish, Some(held), Some(found)) => Ok((held, found)),
        _ => Err(AcquireError::AlreadyAcquired),
    };
    Startup { steps, outcome }
}

/// Whatever the hardware does, start-up ends in one of two ways. Either
/// every step went well: then the steps taken are the script, and the last
/// of them returns. Or some step failed: then the steps taken are the
/// script up to the first step that failed, followed by the trap. No step
/// is taken after the trap or after the return, so the trap is entered at
/// most once.
pub proof fn law_run_all_or_nothing(goes_well: spec_fn(Action) -> bool)
    ensures
        ({
            let run = run_from(Action::AcquireCore, goes_well);
            let last = run.len() - 1;
            &&& 2 <= run.len() <= 7
            &&& run[last] == Action::Finish || run[last] == Action::Trap
            &&& forall|i: int|
                0 <= i < last ==> run[i] == script()[i] && run[i] != Action::Finish && run[i]
                    != Action::Trap
            &&& forall|i: int| 0 <= i < last - 1 ==> goes_well(#[trigger] run[i])
            &&& run[last] == Action::Finish ==> run == script() && goes_well(run[last - 1])
            &&& run[last] == Action::Trap ==> !goes_well(run[last - 1])
        }),
{
    lemma_script_positions();
    reveal_with_fuel(run_from, 8);
}

/// What [`init`] does is what the decisions of [`next_action`] lead to when
/// an acquisition goes well exactly if its bundle is not taken, and every
/// other step goes well.
pub proof fn law_init_follows_the_decisions(taken: Set<Bundle>)
    ensures
        init_steps(taken) == run_from(
            Action::AcquireCore,
            |action: Action|
                match action {
                    Action::AcquireCore => !taken.contains(Bundle::Core),
                    Action::AcquireDevice => !taken.contains(Bundle::Device),
                    _ => true,
                },
        ),
{
    lemma_script_positions();
    reveal_with_fuel(run_from, 8);
}

/// Start-up is all or nothing. Where it succeeds, every step of the script
/// was taken, both bundles are taken, and the two handles resolve to their
/// fixed addresses, neither of which is null. Where it fails, it ends in the
/// trap, and neither was the diagnostics reference derived nor anything
/// returned.
pub proof fn law_init_all_or_nothing(taken: Set<Bundle>)
    ensures
        match init_run(taken).outcome {
            Ok((unit, block)) => {
                &&& init_run(taken).steps == script()
                &&& init_taken(taken).contains(Bundle::Core)
                &&& init_taken(taken).contains(Bundle::Device)
                &&& unit == TRACE_UNIT_BASE && unit != 0
                &&& block == DIAGNOSTICS_BASE && block != 0
            },
            Err(error) => {
                &&& error == AcquireError::AlreadyAcquired
                &&& init_run(taken).steps.last() == Action::Trap
                &&& !init_run(taken).steps.contains(Action::ExposeDiagnostics)
                &&& !init_run(taken).steps.contains(Action::Finish)
            },
        },
{
}

/// The trap is entered at most once in a run of start-up, and no step
/// follows it.
pub proof fn law_trap_ends_startup(taken: Set<Bundle>, at: int)
    requires
        0 <= at < init_run(taken).steps.len(),
        init_run(taken).steps[at] == Action::Trap,
    ensures
        at == init_run(taken).steps.len() - 1,
        next_action(Action::Trap, true) is None,
        next_action(Action::Trap, false) is None,
{
}

/// Whenever start-up succeeds, the diagnostics reference resolves to the
/// same address, whatever the program did before.
pub proof fn law_diagnostics_address_is_fixed(first: Set<Bundle>, second: Set<Bundle>)
    ensures
        init_run(first).outcome matches Ok((_, one)) ==> (init_run(second).outcome matches Ok(
            (_, other),
        ) ==> one == other),
{
}

/// No second start-up succeeds in one program: after a run of start-up,
/// whatever came of it, every further run ends in the trap right after it
/// has asked for the core bundle.
pub proof fn law_init_succeeds_once(taken: Set<Bundle>)
    ensures
        init_run(init_taken(taken)).outcome is Err,
        init_run(init_taken(taken)).steps == seq![Action::AcquireCore, Action::Trap],
        init_taken(init_taken(taken)) == init_taken(taken),
{
}

} // verus!
