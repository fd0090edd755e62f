//! The capsule: the running state that is carried across a reload.
//!
//! A capsule owns its accumulated state, a behaviour definition, an
//! execution driver, a queue of pending exit events and a change flag. The
//! state, the behaviour and the driver are whatever the loaded module makes
//! them: this module never looks inside, it only says who holds them after
//! each step.

use crate::flag::ChangeFlag;
use vstd::prelude::*;

verus! {

/// A failure code: never zero, since zero is how a process reports success.
#[derive(Clone, Copy, Debug, PartialEq, Eq)]
pub struct FailureCode {
    code: u8,
}

impl View for FailureCode {
    type V = int;

    closed spec fn view(&self) -> int {
        self.code as int
    }
}

impl FailureCode {
    #[verifier::type_invariant]
    spec fn nonzero(self) -> bool {
        self.code >= 1
    }

    /// The failure code `code`, or `None` for zero.
    pub fn new(code: u8) -> (made: Option<FailureCode>)
        ensures
            match made {
                Some(failure) => code >= 1 && failure@ == code,
                None => code == 0,
            },
    {
        if code >= 1 {
            Some(FailureCode { code })
        } else {
            None
        }
    }

    /// The code as a number, from 1 to 255.
    pub fn get(&self) -> (code: u8)
        ensures
            code == self@,
            code >= 1,
    {
        proof {
            use_type_invariant(self);
        }
        self.code
    }
}

/// What a capsule's work can queue to end its run.
#[derive(Clone, Copy, Debug, PartialEq, Eq)]
pub enum ExitEvent {
    /// The work is done.
    Success,
    /// The work failed.
    Failure(FailureCode),
    /// The module was rebuilt: pause and hand the capsule back.
    Reload,
}

/// How one run of a capsule ended.
#[derive(Debug, PartialEq, Eq)]
pub enum ExitSignal<C> {
    /// It completed.
    Success,
    /// It failed with this code.
    Failure(FailureCode),
    /// It was paused for a reload and is handed back with its state intact.
    ReloadRequested(C),
}

/// A misuse of the interface between the host and a module.
#[derive(Clone, Copy, Debug, PartialEq, Eq, Structural)]
pub enum ContractViolation {
    /// A capsule was asked of a signal that carries none.
    NotAReload,
    /// An exit code is negative and is not the reload sentinel.
    UnexpectedExitCode,
    /// The host reported something that cannot happen in its phase.
    UnexpectedEvent,
}

/// Two generations of a module that cannot be merged.
#[derive(Clone, Copy, Debug, PartialEq, Eq, Structural)]
pub enum ReconciliationError {
    /// The new capsule has no behaviour definition to give.
    MissingBehavior,
}

/// The running state of a program.
#[derive(Debug, PartialEq, Eq)]
pub struct Capsule<S, B, D> {
    /// What the program has accumulated. A reload leaves it as it is.
    pub state: S,
    /// The registered work. A reload replaces it whole.
    pub behavior: Option<B>,
    /// What pumps a tick and decides when to stop. A reload replaces it.
    pub driver: D,
    /// Exit events queued and not yet acted on.
    pub pending: Vec<ExitEvent>,
    /// Raised when the module was rebuilt.
    pub change_flag: ChangeFlag,
}

/// A capsule as contracts speak of it.
pub struct CapsuleView<S, B, D> {
    pub state: S,
    pub behavior: Option<B>,
    pub driver: D,
    pub pending: Seq<ExitEvent>,
    pub change_flag: bool,
}

impl<S, B, D> View for Capsule<S, B, D> {
    type V = CapsuleView<S, B, D>;

    open spec fn view(&self) -> CapsuleView<S, B, D> {
        CapsuleView {
            state: self.state,
            behavior: self.behavior,
            driver: self.driver,
            pending: self.pending@,
            change_flag: self.change_flag@,
        }
    }
}

/// The exit code that stands for a reload. It never leaves the process.
pub const RELOAD_SENTINEL: i32 = -1;

/// The code of the first failure in `events`, if there is one.
pub open spec fn first_failure(events: Seq<ExitEvent>) -> Option<FailureCode>
    decreases events.len(),
{
    if events.len() == 0 {
        None
    } else {
        match events[0] {
            ExitEvent::Failure(code) => Some(code),
            _ => first_failure(events.drop_first()),
        }
    }
}

/// What a driver makes of its queue: nothing while it is empty; the first
/// failure if there is one; else the event that was queued first.
pub open spec fn verdict(events: Seq<ExitEvent>) -> Option<ExitEvent> {
    match first_failure(events) {
        Some(code) => Some(ExitEvent::Failure(code)),
        None => if events.len() == 0 {
            None
        } else {
            Some(events[0])
        },
    }
}

/// The queue after the flag was looked at: one reload event more where the
/// flag is raised.
pub open spec fn detected(raised: bool, events: Seq<ExitEvent>) -> Seq<ExitEvent> {
    if raised {
        events.push(ExitEvent::Reload)
    } else {
        events
    }
}

/// The exit code of a signal: 0 for success, the code of a failure, the
/// sentinel for a reload.
pub open spec fn code_of<C>(signal: ExitSignal<C>) -> int {
    match signal {
        ExitSignal::Success => 0,
        ExitSignal::Failure(code) => code@,
        ExitSignal::ReloadRequested(_) => RELOAD_SENTINEL as int,
    }
}

/// The merge of a paused capsule with a fresh one: the old state and flag,
/// the new behaviour and driver, and an empty queue.
pub open spec fn merged<S, B, D>(
    old_app: CapsuleView<S, B, D>,
    new_app: CapsuleView<S, B, D>,
) -> CapsuleView<S, B, D> {
    CapsuleView {
        state: old_app.state,
        behavior: new_app.behavior,
        driver: new_app.driver,
        pending: Seq::empty(),
        change_flag: old_app.change_flag,
    }
}

/// Builds a capsule around `state`, with `behavior` registered, `driver`
/// installed, nothing queued and the flag lowered.
pub fn create_app<S, B, D>(state: S, behavior: B, driver: D) -> (app: Capsule<S, B, D>)
    ensures
        app@ == (CapsuleView {
            state,
            behavior: Some(behavior),
            driver,
            pending: Seq::empty(),
            change_flag: false,
        }),
{
    Capsule {
        state,
        behavior: Some(behavior),
        driver,
        pending: Vec::new(),
        change_flag: ChangeFlag::new(),
    }
}

/// Lends out the capsule's change flag, lowered.
///
/// Whatever the borrower leaves in the flag is what the capsule holds
/// afterwards; nothing else of the capsule changes.
pub fn get_hot_reload_detector<S, B, D>(app: &mut Capsule<S, B, D>) -> (flag: &mut ChangeFlag)
    ensures
        *flag == old(app).change_flag.lower(),
        final(app)@ == (CapsuleView { change_flag: final(flag)@, ..old(app)@ }),
{
    app.change_flag.reset();
    &mut app.change_flag
}

/// Raises a flag that was lent out.
pub fn set_hot_reload_detector(flag: &mut ChangeFlag)
    ensures
        *final(flag) == old(flag).raise(),
{
    flag.set();
}

/// Looks at the flag once: where it is raised, queues a reload.
pub fn detect_hot_reload(flag: &ChangeFlag, events: &mut Vec<ExitEvent>)
    ensures
        final(events)@ == detected(flag@, old(events)@),
{
    if flag.is_set() {
        events.push(ExitEvent::Reload);
    }
}

/// Reads the queue as the driver does, without taking anything out of it.
pub fn should_exit(events: &Vec<ExitEvent>) -> (decision: Option<ExitEvent>)
    ensures
        decision == verdict(events@),
{
    let mut at: usize = 0;
    assert(events@.skip(0) =~= events@);
    while at < events.len()
        invariant
            at <= events.len(),
            first_failure(events@) == first_failure(events@.skip(at as int)),
        decreases events.len() - at,
    {
        let ghost rest = events@.skip(at as int);
        assert(rest[0] == events@[at as int]);
        assert(rest.drop_first() =~= events@.skip(at + 1));
        match events[at] {
            ExitEvent::Failure(code) => {
                return Some(ExitEvent::Failure(code));
            },
            _ => {},
        }
        at += 1;
    }
    if events.len() == 0 {
        None
    } else {
        Some(events[0])
    }
}

/// What the driver decided at the end of a tick.
#[derive(Debug, PartialEq, Eq)]
pub enum Tick<S, B, D> {
    /// Nothing asks for an exit: run another tick.
    Continue(Capsule<S, B, D>),
    /// The run is over.
    Exit(ExitSignal<Capsule<S, B, D>>),
}

/// Ends a tick: looks at the change flag, then at the queue.
///
/// Where the flag is raised a reload is queued first. With an empty queue
/// the capsule goes on unchanged. Otherwise the run ends: with the first
/// queued failure if there is one, else with what was queued first. On a
/// reload the capsule is handed back as it stands, its queue included; on
/// success or failure it is given up.
pub fn tick<S, B, D>(app: Capsule<S, B, D>) -> (outcome: Tick<S, B, D>)
    ensures
        match verdict(detected(app@.change_flag, app@.pending)) {
            None => outcome matches Tick::Continue(next) && next@ == app@,
            Some(ExitEvent::Success) => outcome matches Tick::Exit(ExitSignal::Success),
            Some(ExitEvent::Failure(code)) => outcome matches Tick::Exit(
                ExitSignal::Failure(reported),
            ) && reported == code,
            Some(ExitEvent::Reload) => outcome matches Tick::Exit(
                ExitSignal::ReloadRequested(paused),
            ) && paused@ == (CapsuleView {
                pending: detected(app@.change_flag, app@.pending),
                ..app@
            }),
        },
{
    let mut app = app;
    detect_hot_reload(&app.change_flag, &mut app.pending);
    match should_exit(&app.pending) {
        None => Tick::Continue(app),
        Some(ExitEvent::Success) => Tick::Exit(ExitSignal::Success),
        Some(ExitEvent::Failure(code)) => Tick::Exit(ExitSignal::Failure(code)),
        Some(ExitEvent::Reload) => Tick::Exit(ExitSignal::ReloadRequested(app)),
    }
}

/// The exit code of `exit`: 0 for success, 1 to 255 for a failure, the
/// reload sentinel for a reload.
pub fn exit_code<C>(exit: &ExitSignal<C>) -> (code: i32)
    ensures
        code == code_of(*exit),
        exit is Success <==> code == 0,
        exit is Failure <==> 1 <= code <= 255,
        exit is ReloadRequested <==> code == RELOAD_SENTINEL,
{
    match exit {
        ExitSignal::Success => 0,
        ExitSignal::Failure(failure) => failure.get() as i32,
        ExitSignal::ReloadRequested(_) => RELOAD_SENTINEL,
    }
}

/// Takes the paused capsule out of a reload signal.
///
/// A signal of success or failure carries no capsule: asking one of it is a
/// contract violation and is reported as such.
pub fn exit_into_app<C>(exit: ExitSignal<C>) -> (app: Result<C, ContractViolation>)
    ensures
        match exit {
            ExitSignal::ReloadRequested(paused) => app == Ok::<C, ContractViolation>(paused),
            _ => app == Err::<C, ContractViolation>(ContractViolation::NotAReload),
        },
{
    match exit {
        ExitSignal::ReloadRequested(paused) => Ok(paused),
        _ => Err(ContractViolation::NotAReload),
    }
}

/// Merges a paused capsule with one freshly constructed by the new build.
///
/// The old queue is emptied, so that no stale event ends the next run at
/// once. The new behaviour and the new driver take the place of the old
/// ones. The rest of the new capsule is dropped. The old state and the old
/// flag come through untouched.
pub fn hot_reload_app<S, B, D>(old_app: Capsule<S, B, D>, new_app: Capsule<S, B, D>) -> (app:
    Capsule<S, B, D>)
    requires
        new_app.behavior is Some,
    ensures
        app@ == merged(old_app@, new_app@),
{
    let mut app = old_app;
    app.pending.clear();
    app.behavior = new_app.behavior;
    app.driver = new_app.driver;
    app
}

/// Merges a paused capsule with a fresh one, or refuses.
///
/// A new capsule without a behaviour definition comes from a build that
/// cannot be merged with the old one: the error is `MissingBehavior` and both
/// capsules are given up. Otherwise the result is that of
/// [`hot_reload_app`].
pub fn hot_reload_reconciliation<S, B, D>(
    old_app: Capsule<S, B, D>,
    new_app: Capsule<S, B, D>,
) -> (app: Result<Capsule<S, B, D>, ReconciliationError>)
    ensures
        match new_app.behavior {
            Some(_) => app matches Ok(kept) && kept@ == merged(old_app@, new_app@),
            None => app matches Err(e) && e == ReconciliationError::MissingBehavior,
        },
{
    if new_app.behavior.is_some() {
        Ok(hot_reload_app(old_app, new_app))
    } else {
        Err(ReconciliationError::MissingBehavior)
    }
}

/// A merge keeps the old state and the old flag and takes the behaviour and
/// the driver of the new capsule, whatever the two capsules hold.
pub proof fn law_merge_keeps_state<S, B, D>(
    old_app: CapsuleView<S, B, D>,
    new_app: CapsuleView<S, B, D>,
)
    ensures
        merged(old_app, new_app).state == old_app.state,
        merged(old_app, new_app).change_flag == old_app.change_flag,
        merged(old_app, new_app).behavior == new_app.behavior,
        merged(old_app, new_app).driver == new_app.driver,
{
}

/// A merge changes nothing of an old capsule with an empty queue but its
/// behaviour and its driver.
pub proof fn law_merge_changes_only_behavior_and_driver<S, B, D>(
    old_app: CapsuleView<S, B, D>,
    new_app: CapsuleView<S, B, D>,
)
    requires
        old_app.pending.len() == 0,
    ensures
        merged(old_app, new_app) == (CapsuleView {
            behavior: new_app.behavior,
            driver: new_app.driver,
            ..old_app
        }),
{
    assert(old_app.pending =~= Seq::empty());
}

/// A merged capsule has nothing queued: its next tick ends the run only if
/// its flag is raised.
pub proof fn law_merge_drops_stale_events<S, B, D>(
    old_app: CapsuleView<S, B, D>,
    new_app: CapsuleView<S, B, D>,
)
    ensures
        verdict(detected(false, merged(old_app, new_app).pending)) is None,
{
}

} // verus!
