//! The orchestrator: the host's cycle of load, run and reload.
//!
//! The host does the work that takes time or touches the outside: it opens
//! the artifact, calls the constructor, runs the capsule, runs the merge.
//! After each piece of work it reports what happened, and the orchestrator
//! answers with the phase it is in now and the work to do next. A capsule is
//! an opaque value here; the orchestrator only passes it on.
//!
//! A failure while loading or reloading is final: the paused capsule was
//! given to the step that failed, so there is nothing to go back to.

use crate::capsule::{
    ContractViolation,
    ExitSignal,
    FailureCode,
    ReconciliationError,
    RELOAD_SENTINEL,
    code_of,
};
use crate::symbols::{LoadError, SymbolResolutionError};
use vstd::prelude::*;

verus! {

/// Why the host gives up.
#[derive(Clone, Copy, Debug, PartialEq, Eq, Structural)]
pub enum FatalError {
    /// The artifact could not be loaded.
    Load(LoadError),
    /// An entry point is missing or ambiguous.
    Symbol(SymbolResolutionError),
    /// The old and the new capsule cannot be merged.
    Reconciliation(ReconciliationError),
    /// The host or the module broke the interface.
    Contract(ContractViolation),
}

/// Where the host is in its cycle.
#[derive(Debug, PartialEq, Eq)]
pub enum Phase<C> {
    /// The first build is being loaded and its capsule constructed.
    Loading,
    /// A capsule is running.
    Running,
    /// A reload is under way. The paused capsule is held here while the new
    /// build is loaded, and is out of here while the merge runs.
    Reloading(Option<C>),
    /// The process ends with this status.
    Exiting(u8),
}

/// What the host reports.
#[derive(Debug, PartialEq, Eq)]
pub enum Event<C> {
    /// The artifact was loaded, its entry points resolved and a capsule
    /// constructed.
    Constructed(C),
    /// The artifact could not be loaded.
    LoadFailed(LoadError),
    /// An entry point did not resolve.
    ResolveFailed(SymbolResolutionError),
    /// The run ended.
    Finished(ExitSignal<C>),
    /// The merge gave this capsule.
    Reconciled(C),
    /// The merge was refused.
    ReconcileFailed(ReconciliationError),
}

/// What the host does next.
#[derive(Debug, PartialEq, Eq)]
pub enum Action<C> {
    /// Open the artifact anew, resolve its entry points, construct a capsule.
    Load,
    /// Lower the change flag, start a watcher at the artifact's present
    /// modification time, and run this capsule.
    Run(C),
    /// Merge the paused capsule with the fresh one.
    Reconcile { old_app: C, new_app: C },
    /// End the process with this status.
    Exit(u8),
}

/// A phase and the work that goes with it.
#[derive(Debug, PartialEq, Eq)]
pub struct Step<C> {
    pub phase: Phase<C>,
    pub action: Action<C>,
}

/// What an exit code asks of the host.
#[derive(Clone, Copy, Debug, PartialEq, Eq, Structural)]
pub enum Dispatch {
    /// End the process with this status.
    Exit(u8),
    /// Take the paused capsule and reload.
    Reload,
}

/// The cycle's first step: load.
pub open spec fn first_step<C>() -> Step<C> {
    Step { phase: Phase::Loading, action: Action::Load }
}

/// The step that follows `event` in `phase`, or the error that ends the
/// cycle.
pub open spec fn transition<C>(phase: Phase<C>, event: Event<C>) -> Result<Step<C>, FatalError> {
    match (phase, event) {
        (Phase::Loading, Event::Constructed(app)) => Ok(
            Step { phase: Phase::Running, action: Action::Run(app) },
        ),
        (Phase::Loading, Event::LoadFailed(error)) => Err(FatalError::Load(error)),
        (Phase::Loading, Event::ResolveFailed(error)) => Err(FatalError::Symbol(error)),
        (Phase::Running, Event::Finished(ExitSignal::Success)) => Ok(
            Step { phase: Phase::Exiting(0), action: Action::Exit(0) },
        ),
        (Phase::Running, Event::Finished(ExitSignal::Failure(code))) => Ok(
            Step { phase: Phase::Exiting(code@ as u8), action: Action::Exit(code@ as u8) },
        ),
        (Phase::Running, Event::Finished(ExitSignal::ReloadRequested(paused))) => Ok(
            Step { phase: Phase::Reloading(Some(paused)), action: Action::Load },
        ),
        (Phase::Reloading(Some(paused)), Event::Constructed(fresh)) => Ok(
            Step {
                phase: Phase::Reloading(None),
                action: Action::Reconcile { old_app: paused, new_app: fresh },
            },
        ),
        (Phase::Reloading(Some(_)), Event::LoadFailed(error)) => Err(FatalError::Load(error)),
        (Phase::Reloading(Some(_)), Event::ResolveFailed(error)) => Err(
            FatalError::Symbol(error),
        ),
        (Phase::Reloading(None), Event::Reconciled(kept)) => Ok(
            Step { phase: Phase::Running, action: Action::Run(kept) },
        ),
        (Phase::Reloading(None), Event::ReconcileFailed(error)) => Err(
            FatalError::Reconciliation(error),
        ),
        _ => Err(FatalError::Contract(ContractViolation::UnexpectedEvent)),
    }
}

/// How many capsules a phase holds.
pub open spec fn held_in_phase<C>(phase: Phase<C>) -> nat {
    match phase {
        Phase::Reloading(Some(_)) => 1,
        _ => 0,
    }
}

/// How many capsules an event hands in.
pub open spec fn held_in_event<C>(event: Event<C>) -> nat {
    match event {
        Event::Constructed(_) => 1,
        Event::Finished(ExitSignal::ReloadRequested(_)) => 1,
        Event::Reconciled(_) => 1,
        _ => 0,
    }
}

/// How many capsules an action hands out.
pub open spec fn held_in_action<C>(action: Action<C>) -> nat {
    match action {
        Action::Run(_) => 1,
        Action::Reconcile { .. } => 2,
        _ => 0,
    }
}

/// What the exit code `code` asks of the host: 0 ends the process with
/// success, the sentinel asks for a reload, a positive code ends the process
/// with its low eight bits as the status, and any other negative code is a
/// contract violation.
pub open spec fn dispatch_of(code: int) -> Result<Dispatch, ContractViolation> {
    if code == 0 {
        Ok(Dispatch::Exit(0))
    } else if code == RELOAD_SENTINEL {
        Ok(Dispatch::Reload)
    } else if code > 0 {
        Ok(Dispatch::Exit((code % 256) as u8))
    } else {
        Err(ContractViolation::UnexpectedExitCode)
    }
}

/// Begins the cycle.
pub fn start<C>() -> (step: Step<C>)
    ensures
        step == first_step::<C>(),
{
    Step { phase: Phase::Loading, action: Action::Load }
}

/// Takes the host's report and gives the next step.
///
/// From `Loading`, a constructed capsule is run. From `Running`, success
/// ends the process with status 0, a failure with its code, and a reload
/// request starts a reload with the paused capsule held. From `Reloading`,
/// the fresh capsule and the held one go to the merge, and what the merge
/// gives is run. Any failure to load, resolve or merge ends the cycle with
/// its error, and so does an event that its phase does not expect.
pub fn step<C>(phase: Phase<C>, event: Event<C>) -> (next: Result<Step<C>, FatalError>)
    ensures
        next == transition(phase, event),
        next matches Ok(taken) ==> held_in_phase(taken.phase) + held_in_action(taken.action)
            <= held_in_phase(phase) + held_in_event(event),
        next matches Ok(taken) ==> (taken.action is Run ==> taken.phase is Running),
{
    match phase {
        Phase::Loading => match event {
            Event::Constructed(app) => Ok(Step { phase: Phase::Running, action: Action::Run(app) }),
            Event::LoadFailed(error) => Err(FatalError::Load(error)),
            Event::ResolveFailed(error) => Err(FatalError::Symbol(error)),
            _ => Err(FatalError::Contract(ContractViolation::UnexpectedEvent)),
        },
        Phase::Running => match event {
            Event::Finished(ExitSignal::Success) => Ok(
                Step { phase: Phase::Exiting(0), action: Action::Exit(0) },
            ),
            Event::Finished(ExitSignal::Failure(code)) => {
                let status = code.get();
                Ok(Step { phase: Phase::Exiting(status), action: Action::Exit(status) })
            },
            Event::Finished(ExitSignal::ReloadRequested(paused)) => Ok(
                Step { phase: Phase::Reloading(Some(paused)), action: Action::Load },
            ),
            _ => Err(FatalError::Contract(ContractViolation::UnexpectedEvent)),
        },
        Phase::Reloading(Some(paused)) => match event {
            Event::Constructed(fresh) => Ok(
                Step {
                    phase: Phase::Reloading(None),
                    action: Action::Reconcile { old_app: paused, new_app: fresh },
                },
            ),
            Event::LoadFailed(error) => Err(FatalError::Load(error)),
            Event::ResolveFailed(error) => Err(FatalError::Symbol(error)),
            _ => Err(FatalError::Contract(ContractViolation::UnexpectedEvent)),
        },
        Phase::Reloading(None) => match event {
            Event::Reconciled(kept) => Ok(
                Step { phase: Phase::Running, action: Action::Run(kept) },
            ),
            Event::ReconcileFailed(error) => Err(FatalError::Reconciliation(error)),
            _ => Err(FatalError::Contract(ContractViolation::UnexpectedEvent)),
        },
        Phase::Exiting(_) => Err(FatalError::Contract(ContractViolation::UnexpectedEvent)),
    }
}

/// Reads an exit code that came across the module boundary.
pub fn dispatch_exit_code(code: i32) -> (asked: Result<Dispatch, ContractViolation>)
    ensures
        asked == dispatch_of(code as int),
{
    if code == 0 {
        Ok(Dispatch::Exit(0))
    } else if code == RELOAD_SENTINEL {
        Ok(Dispatch::Reload)
    } else if code > 0 {
        Ok(Dispatch::Exit((code % 256) as u8))
    } else {
        Err(ContractViolation::UnexpectedExitCode)
    }
}

/// A run that ends with the failure code `code` makes the process exit with
/// that code as its status.
pub proof fn law_failure_code_is_exit_status<C>(code: FailureCode)
    requires
        1 <= code@ <= 255,
    ensures
        transition::<C>(Phase::Running, Event::Finished(ExitSignal::Failure(code))) == Ok::<
            Step<C>,
            FatalError,
        >(Step { phase: Phase::Exiting(code@ as u8), action: Action::Exit(code@ as u8) }),
        (code@ as u8) as int == code@,
        dispatch_of(code_of(ExitSignal::<C>::Failure(code))) == Ok::<
            Dispatch,
            ContractViolation,
        >(Dispatch::Exit(code@ as u8)),
{
}

/// A run that ends with success makes the process exit with status 0.
pub proof fn law_success_is_status_zero<C>()
    ensures
        transition::<C>(Phase::Running, Event::Finished(ExitSignal::Success)) == Ok::<
            Step<C>,
            FatalError,
        >(Step { phase: Phase::Exiting(0), action: Action::Exit(0) }),
        dispatch_of(code_of(ExitSignal::<C>::Success)) == Ok::<Dispatch, ContractViolation>(
            Dispatch::Exit(0),
        ),
{
}

/// The reload sentinel never becomes an exit status: a reload request leads
/// to another load, with the paused capsule held.
pub proof fn law_reload_never_exits<C>(paused: C)
    ensures
        transition(Phase::Running, Event::Finished(ExitSignal::ReloadRequested(paused))) == Ok::<
            Step<C>,
            FatalError,
        >(Step { phase: Phase::Reloading(Some(paused)), action: Action::Load }),
        dispatch_of(code_of(ExitSignal::ReloadRequested(paused))) == Ok::<
            Dispatch,
            ContractViolation,
        >(Dispatch::Reload),
{
}

/// No step hands out more capsules than it was given, and `Exiting` is
/// final: nothing follows it.
pub proof fn law_capsules_are_never_copied<C>(phase: Phase<C>, event: Event<C>)
    ensures
        transition(phase, event) matches Ok(taken) ==> held_in_phase(taken.phase)
            + held_in_action(taken.action) <= held_in_phase(phase) + held_in_event(event),
        phase is Exiting ==> transition(phase, event) is Err,
{
}

} // verus!
