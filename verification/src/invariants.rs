//! What holds of every step of the handler, and of its whole runs.

use vstd::prelude::*;
use crate::error::Error;
use crate::handler::{
    block_transition, init_transition, wait_result, wait_went_wrong, Action, Event, Handle, State,
    INFINITE, MAX_SEM_COUNT, WAIT_ABANDONED, WAIT_FAILED, WAIT_OBJECT_0,
};

verus! {

impl State {
    /// Whether no system call is under way: the caller may ask for
    /// something.
    pub open spec fn at_rest(self) -> bool {
        self is Uninitialized || self is Armed
    }

    /// The semaphore that exists in this state: created and not closed.
    pub open spec fn semaphore(self) -> Option<Handle> {
        match self {
            State::Uninitialized | State::Creating | State::CreateFailed => None,
            State::Installing { semaphore }
            | State::InstallFailed { semaphore }
            | State::Closing { semaphore, .. }
            | State::Armed { semaphore }
            | State::Waiting { semaphore }
            | State::WaitFailed { semaphore } => Some(semaphore),
        }
    }

    /// Whether the console holds the handler routine in this state.
    pub open spec fn handler_installed(self) -> bool {
        self is Armed || self is Waiting || self is WaitFailed
    }

    /// Whether the state can be reached: a semaphore that exists is not
    /// the null handle.
    pub open spec fn wf(self) -> bool {
        self.semaphore() != Some(0usize)
    }

    /// At most how many actions are still handed out, the returning one
    /// among them, before the handler is at rest again.
    pub open spec fn steps_left(self) -> nat {
        match self {
            State::Uninitialized | State::Armed { .. } => 0,
            State::CreateFailed | State::Closing { .. } | State::WaitFailed { .. } => 1,
            State::InstallFailed { .. } | State::Waiting { .. } => 2,
            State::Installing { .. } => 3,
            State::Creating => 4,
        }
    }
}

/// A step of either kind: setting up, or waiting.
pub open spec fn transition(state: State, event: Event) -> Option<(State, Action)> {
    if init_transition(state, event) is Some {
        init_transition(state, event)
    } else {
        block_transition(state, event)
    }
}

/// Setting up and waiting never compete for an event, and a request of the
/// caller is taken exactly at rest: `Init` where the handler is
/// uninitialized, `Block` where it is armed.
pub proof fn lemma_one_step_at_a_time(state: State, event: Event)
    ensures
        !(init_transition(state, event) is Some && block_transition(state, event) is Some),
        init_transition(state, event) is Some && event is Init ==> state is Uninitialized,
        block_transition(state, event) is Some && event is Block ==> state is Armed,
        transition(state, event) is Some ==> (state.at_rest() <==> event is Init || event is Block),
{
}

/// A step keeps a reachable state reachable.
pub proof fn lemma_step_keeps_wf(state: State, event: Event)
    requires
        state.wf(),
        transition(state, event) is Some,
    ensures
        transition(state, event).unwrap().0.wf(),
{
}

/// The state knows which semaphore exists. One comes into being when the
/// system reports that it created one, and only where none existed; it is
/// gone when the system reports that it closed it; no other step touches
/// it. So no state at rest but `Armed` leaves a semaphore behind.
pub proof fn lemma_semaphore_is_tracked(state: State, event: Event)
    requires
        transition(state, event) is Some,
    ensures
        ({
            let next = transition(state, event).unwrap().0;
            &&& event matches Event::Created { handle } ==> {
                &&& state.semaphore() is None
                &&& handle != 0 ==> next.semaphore() == Some(handle)
                &&& handle == 0 ==> next.semaphore() is None
            }
            &&& event is Closed ==> state.semaphore() is Some && next.semaphore() is None
            &&& !(event is Created) && !(event is Closed) ==> next.semaphore() == state.semaphore()
            &&& next.at_rest() && next.semaphore() is Some ==> next is Armed
        }),
{
}

/// Every action is handed out with the arguments that the handler stands
/// for: a semaphore is created only where none exists, empty and with room
/// for `MAX_SEM_COUNT`; the handler routine is installed only for a
/// semaphore that exists, and only where it is not installed yet; only the
/// semaphore that exists is closed or waited on; it is closed only while
/// the routine is not installed; a wait has no timeout.
pub proof fn lemma_actions_fit_state(state: State, event: Event)
    requires
        state.wf(),
        transition(state, event) is Some,
    ensures
        ({
            let (next, action) = transition(state, event).unwrap();
            &&& action matches Action::CreateSemaphore { initial_count, maximum_count } ==> {
                &&& state.semaphore() is None
                &&& initial_count == 0
                &&& maximum_count == MAX_SEM_COUNT
            }
            &&& action matches Action::InstallHandler { semaphore } ==> {
                &&& semaphore != 0
                &&& next.semaphore() == Some(semaphore)
                &&& !state.handler_installed()
            }
            &&& action matches Action::CloseSemaphore { semaphore } ==> {
                &&& next.semaphore() == Some(semaphore)
                &&& !next.handler_installed()
            }
            &&& action matches Action::Wait { semaphore, timeout } ==> {
                &&& next.semaphore() == Some(semaphore)
                &&& next.handler_installed()
                &&& timeout == INFINITE
            }
        }),
{
}

/// The handler routine is never installed without a semaphore to release.
/// It becomes installed by an installation that the system accepts, and by
/// nothing else; the semaphore exists before that and afterwards. Once
/// installed, the routine stays, and so does its semaphore.
pub proof fn lemma_handler_has_semaphore(state: State, event: Event)
    requires
        transition(state, event) is Some,
    ensures
        ({
            let next = transition(state, event).unwrap().0;
            &&& state.handler_installed() ==> state.semaphore() is Some
            &&& !state.handler_installed() && next.handler_installed() ==> {
                &&& event == (Event::Installed { accepted: true })
                &&& state.semaphore() is Some
                &&& next.semaphore() == state.semaphore()
            }
            &&& state.handler_installed() ==> {
                &&& next.handler_installed()
                &&& next.semaphore() == state.semaphore()
            }
        }),
{
}

/// A request is served in a bounded number of steps: the action returns
/// exactly when the handler comes to rest, and every other action brings
/// the return nearer. Setting up takes at most five actions, a wait at
/// most three.
pub proof fn lemma_steps_are_bounded(state: State, event: Event)
    requires
        transition(state, event) is Some,
    ensures
        ({
            let (next, action) = transition(state, event).unwrap();
            &&& action is Return <==> next.at_rest()
            &&& !state.at_rest() ==> next.steps_left() < state.steps_left()
            &&& event is Init ==> next.steps_left() == 4
            &&& event is Block ==> next.steps_left() == 2
        }),
{
}

/// Whether `event` is how the system reports the outcome of `action`.
pub open spec fn reports(event: Event, action: Action) -> bool {
    match action {
        Action::CreateSemaphore { .. } => event is Created,
        Action::InstallHandler { .. } => event is Installed,
        Action::QueryLastError => event is LastError,
        Action::CloseSemaphore { .. } => event is Closed,
        Action::Wait { .. } => event is Waited,
        Action::Return(_) => false,
    }
}

/// A driver is never stuck: whatever the system reports as the outcome of
/// the action that was handed out has its place in the state that was
/// reached, in setting up as in waiting.
pub proof fn lemma_outcome_has_its_place(state: State, event: Event, outcome: Event)
    ensures
        init_transition(state, event) matches Some((next, action)) ==> reports(outcome, action)
            ==> init_transition(next, outcome) is Some,
        block_transition(state, event) matches Some((next, action)) ==> reports(outcome, action)
            ==> block_transition(next, outcome) is Some,
{
}

/// How setting up ends: with `Ok` the handler is armed, with an error it is
/// uninitialized again and the error is a code of the system.
pub proof fn lemma_init_outcome(state: State, event: Event)
    requires
        init_transition(state, event) is Some,
    ensures
        ({
            let (next, action) = init_transition(state, event).unwrap();
            &&& action matches Action::Return(Ok(_)) ==> next is Armed && next.semaphore()
                == state.semaphore() && event == (Event::Installed { accepted: true })
            &&& action matches Action::Return(Err(e)) ==> next is Uninitialized && e is Os
        }),
{
}

/// How a wait ends: the handler is armed as before; the result is `Ok`
/// exactly when the wait came back signaled, an error of the system only
/// after its code was read, and an unexpected status only where the wait
/// came back with that status and it is none of signaled, failed and
/// abandoned.
pub proof fn lemma_block_outcome(state: State, event: Event)
    requires
        block_transition(state, event) is Some,
    ensures
        ({
            let (next, action) = block_transition(state, event).unwrap();
            &&& state.semaphore() is Some && next.semaphore() == state.semaphore()
            &&& action is Return ==> next is Armed && !(event is Block)
            &&& action matches Action::Return(r) ==> (r is Ok <==> event == (Event::Waited {
                status: WAIT_OBJECT_0,
            }))
            &&& action matches Action::Return(Err(Error::Os(_))) ==> state is WaitFailed
            &&& action matches Action::Return(Err(Error::Unexpected(status))) ==> {
                &&& event == (Event::Waited { status })
                &&& status != WAIT_OBJECT_0
                &&& !wait_went_wrong(status)
            }
        }),
{
}

/// Setting up where the system does its part: the semaphore is created,
/// then the handler routine installed for it, and the handler is armed.
pub proof fn lemma_init_succeeds(handle: Handle)
    requires
        handle != 0,
    ensures
        init_transition(State::Uninitialized, Event::Init) == Some(
            (
                State::Creating,
                Action::CreateSemaphore { initial_count: 0, maximum_count: MAX_SEM_COUNT },
            ),
        ),
        init_transition(State::Creating, Event::Created { handle }) == Some(
            (State::Installing { semaphore: handle }, Action::InstallHandler { semaphore: handle }),
        ),
        init_transition(State::Installing { semaphore: handle }, Event::Installed { accepted: true })
            == Some((State::Armed { semaphore: handle }, Action::Return(Ok(())))),
{
}

/// Setting up where no semaphore can be created: the error code is read
/// and returned, and nothing else is done.
pub proof fn lemma_init_without_semaphore(code: i32)
    ensures
        init_transition(State::Creating, Event::Created { handle: 0 }) == Some(
            (State::CreateFailed, Action::QueryLastError),
        ),
        init_transition(State::CreateFailed, Event::LastError { code }) == Some(
            (State::Uninitialized, Action::Return(Err(Error::Os(code)))),
        ),
{
}

/// Setting up where the system refuses the handler routine: the error code
/// is read first, then the semaphore is closed, then the code is returned;
/// the handler is uninitialized as at the start, so that setting up can be
/// tried again.
pub proof fn lemma_init_rolls_back(handle: Handle, code: i32)
    requires
        handle != 0,
    ensures
        init_transition(
            State::Installing { semaphore: handle },
            Event::Installed { accepted: false },
        ) == Some((State::InstallFailed { semaphore: handle }, Action::QueryLastError)),
        init_transition(State::InstallFailed { semaphore: handle }, Event::LastError { code })
            == Some(
            (
                State::Closing { semaphore: handle, cause: code },
                Action::CloseSemaphore { semaphore: handle },
            ),
        ),
        init_transition(State::Closing { semaphore: handle, cause: code }, Event::Closed) == Some(
            (State::Uninitialized, Action::Return(Err(Error::Os(code)))),
        ),
{
}

/// A whole wait: the semaphore that the handler routine releases is waited
/// on without timeout; the error code is read after a wait that went
/// wrong, and after no other; the caller gets `wait_result` and the handler
/// is armed for the next wait.
pub proof fn lemma_block_round(semaphore: Handle, status: u32, code: i32)
    ensures
        block_transition(State::Armed { semaphore }, Event::Block) == Some(
            (State::Waiting { semaphore }, Action::Wait { semaphore, timeout: INFINITE }),
        ),
        !wait_went_wrong(status) ==> block_transition(
            State::Waiting { semaphore },
            Event::Waited { status },
        ) == Some((State::Armed { semaphore }, Action::Return(wait_result(status, code)))),
        wait_went_wrong(status) ==> block_transition(
            State::Waiting { semaphore },
            Event::Waited { status },
        ) == Some((State::WaitFailed { semaphore }, Action::QueryLastError)),
        wait_went_wrong(status) ==> block_transition(
            State::WaitFailed { semaphore },
            Event::LastError { code },
        ) == Some((State::Armed { semaphore }, Action::Return(wait_result(status, code)))),
{
}

/// A wait that failed and a wait that was abandoned end alike: the error
/// code is read, and the caller gets it as an error of the system, never
/// as an unexpected status.
pub proof fn lemma_block_reports_system_errors(semaphore: Handle, code: i32)
    ensures
        wait_result(WAIT_FAILED, code) == Err::<(), Error>(Error::Os(code)),
        wait_result(WAIT_ABANDONED, code) == Err::<(), Error>(Error::Os(code)),
        block_transition(State::Waiting { semaphore }, Event::Waited { status: WAIT_FAILED })
            == Some((State::WaitFailed { semaphore }, Action::QueryLastError)),
        block_transition(State::Waiting { semaphore }, Event::Waited { status: WAIT_ABANDONED })
            == Some((State::WaitFailed { semaphore }, Action::QueryLastError)),
        block_transition(State::WaitFailed { semaphore }, Event::LastError { code }) == Some(
            (State::Armed { semaphore }, Action::Return(Err(Error::Os(code)))),
        ),
{
}

/// The state that a row of events leads to from `state`, or `None` where
/// one of them has no place in the state that it meets.
pub open spec fn run(state: State, events: Seq<Event>) -> Option<State>
    decreases events.len(),
{
    if events.len() == 0 {
        Some(state)
    } else {
        match run(state, events.drop_last()) {
            None => None,
            Some(before) => match transition(before, events.last()) {
                None => None,
                Some((next, _)) => Some(next),
            },
        }
    }
}

/// How many semaphores the system reports to have created along `events`.
pub open spec fn semaphores_created(events: Seq<Event>) -> nat
    decreases events.len(),
{
    if events.len() == 0 {
        0
    } else {
        let earlier: nat = semaphores_created(events.drop_last());
        match events.last() {
            Event::Created { handle } => if handle != 0 {
                earlier + 1
            } else {
                earlier
            },
            _ => earlier,
        }
    }
}

/// How many semaphores the system reports to have closed along `events`.
pub open spec fn semaphores_closed(events: Seq<Event>) -> nat
    decreases events.len(),
{
    if events.len() == 0 {
        0
    } else {
        let earlier: nat = semaphores_closed(events.drop_last());
        match events.last() {
            Event::Closed => earlier + 1,
            _ => earlier,
        }
    }
}

/// How many times the system reports to have accepted the handler routine
/// along `events`.
pub open spec fn handlers_accepted(events: Seq<Event>) -> nat
    decreases events.len(),
{
    if events.len() == 0 {
        0
    } else {
        let earlier: nat = handlers_accepted(events.drop_last());
        match events.last() {
            Event::Installed { accepted } => if accepted {
                earlier + 1
            } else {
                earlier
            },
            _ => earlier,
        }
    }
}

/// Whatever happens after the start of the process, in whatever order the
/// caller asks and whatever the system answers: every semaphore that was
/// created has been closed, but for the one that the state holds, which is
/// not null; and the handler routine was accepted once if it is installed,
/// and never if it is not. So a set-up that failed has left nothing
/// behind, and no set-up installs a second routine.
pub proof fn lemma_nothing_leaks(events: Seq<Event>)
    requires
        run(State::Uninitialized, events) is Some,
    ensures
        ({
            let last = run(State::Uninitialized, events).unwrap();
            &&& last.wf()
            &&& semaphores_created(events) == semaphores_closed(events) + (if last.semaphore()
                is Some {
                1nat
            } else {
                0nat
            })
            &&& handlers_accepted(events) == (if last.handler_installed() {
                1nat
            } else {
                0nat
            })
        }),
    decreases events.len(),
{
    if events.len() > 0 {
        let before = run(State::Uninitialized, events.drop_last()).unwrap();
        lemma_nothing_leaks(events.drop_last());
        lemma_step_keeps_wf(before, events.last());
        lemma_semaphore_is_tracked(before, events.last());
        lemma_handler_has_semaphore(before, events.last());
    }
}

/// How many times the caller asks to wait along `events`.
pub open spec fn waits_asked(events: Seq<Event>) -> nat
    decreases events.len(),
{
    if events.len() == 0 {
        0
    } else {
        let earlier: nat = waits_asked(events.drop_last());
        match events.last() {
            Event::Block => earlier + 1,
            _ => earlier,
        }
    }
}

/// How many waits the system reports to have come back along `events`.
pub open spec fn waits_ended(events: Seq<Event>) -> nat
    decreases events.len(),
{
    if events.len() == 0 {
        0
    } else {
        let earlier: nat = waits_ended(events.drop_last());
        match events.last() {
            Event::Waited { .. } => earlier + 1,
            _ => earlier,
        }
    }
}

/// How many waits the system reports to have come back signaled along
/// `events`: how many signals the waits took from the semaphore.
pub open spec fn waits_signaled(events: Seq<Event>) -> nat
    decreases events.len(),
{
    if events.len() == 0 {
        0
    } else {
        let earlier: nat = waits_signaled(events.drop_last());
        match events.last() {
            Event::Waited { status } => if status == WAIT_OBJECT_0 {
                earlier + 1
            } else {
                earlier
            },
            _ => earlier,
        }
    }
}

/// How many requests to wait are answered along `events` from `state`, and
/// how many of them with `Ok`.
pub open spec fn waits_answered(state: State, events: Seq<Event>) -> (nat, nat)
    decreases events.len(),
{
    if events.len() == 0 {
        (0, 0)
    } else {
        let earlier: (nat, nat) = waits_answered(state, events.drop_last());
        match run(state, events.drop_last()) {
            Some(before) => match block_transition(before, events.last()) {
                Some((_, Action::Return(Ok(_)))) => (earlier.0 + 1, earlier.1 + 1),
                Some((_, Action::Return(Err(_)))) => (earlier.0 + 1, earlier.1),
                _ => earlier,
            },
            None => earlier,
        }
    }
}

/// Whatever happens after the start of the process: every request to wait
/// makes one wait and no more; it is answered only after that wait came
/// back, and after its error code was read where the wait went wrong; and
/// as many requests are answered `Ok` as waits came back signaled, so that
/// each `Ok` stands for one signal taken from the semaphore.
pub proof fn lemma_waits_are_accounted(events: Seq<Event>)
    requires
        run(State::Uninitialized, events) is Some,
    ensures
        ({
            let last = run(State::Uninitialized, events).unwrap();
            let (answered, answered_ok) = waits_answered(State::Uninitialized, events);
            &&& waits_asked(events) == waits_ended(events) + (if last is Waiting {
                1nat
            } else {
                0nat
            })
            &&& waits_ended(events) == answered + (if last is WaitFailed {
                1nat
            } else {
                0nat
            })
            &&& answered_ok == waits_signaled(events)
        }),
    decreases events.len(),
{
    if events.len() > 0 {
        lemma_waits_are_accounted(events.drop_last());
    }
}


} // verus!
