//! Setting up the handler and waiting for a signal, one system call at a
//! time.
//!
//! Nothing here calls the system. A driver holds a [`State`], hands
//! [`init_os_handler`] or [`block_ctrl_c`] the [`Event`] that just occurred,
//! performs the [`Action`] that comes back and reports its outcome as the
//! next event, until the action is [`Action::Return`].

use vstd::prelude::*;
use crate::error::Error;
use crate::signal::Signal;

verus! {

/// A handle of the system, as a plain number. Zero is the null handle.
pub type Handle = usize;

/// Most signals that the semaphore keeps for later waits. A signal that
/// comes while that many are kept is not counted.
pub const MAX_SEM_COUNT: i32 = 255;

/// Timeout of a wait that never times out.
pub const INFINITE: u32 = 0xFFFF_FFFF;

/// Status of a wait that ended because the semaphore was signaled.
pub const WAIT_OBJECT_0: u32 = 0;

/// Status of a wait that ended because the owner of the object waited on
/// was gone: the wait is abandoned.
pub const WAIT_ABANDONED: u32 = 0x80;

/// Status of a wait that failed.
pub const WAIT_FAILED: u32 = 0xFFFF_FFFF;

/// Where the handler stands.
///
/// `Uninitialized` and `Armed` are the two states of rest; in every other
/// state one system call is under way and its outcome is awaited.
#[derive(Debug, Clone, Copy, PartialEq, Eq)]
pub enum State {
    /// No semaphore, no handler routine.
    Uninitialized,
    /// The semaphore is being created.
    Creating,
    /// No semaphore could be created; the error code is being read.
    CreateFailed,
    /// The semaphore exists and the handler routine is being installed.
    Installing { semaphore: Handle },
    /// The system refused the handler routine; the error code is being read.
    InstallFailed { semaphore: Handle },
    /// The semaphore is being closed again after the refusal with code
    /// `cause`.
    Closing { semaphore: Handle, cause: i32 },
    /// The handler routine is installed and releases `semaphore`.
    Armed { semaphore: Handle },
    /// A wait on the semaphore is under way.
    Waiting { semaphore: Handle },
    /// A wait failed or was abandoned; the error code is being read.
    WaitFailed { semaphore: Handle },
}

/// What happened: a request of the caller, or the outcome of the action
/// that was last handed out.
#[derive(Debug, Clone, Copy, PartialEq, Eq)]
pub enum Event {
    /// The caller asks for the handler to be set up.
    Init,
    /// The caller asks to wait for a signal.
    Block,
    /// `Action::CreateSemaphore` gave this handle; null if it failed.
    Created { handle: Handle },
    /// `Action::InstallHandler` was accepted by the system, or refused.
    Installed { accepted: bool },
    /// `Action::QueryLastError` gave this code.
    LastError { code: i32 },
    /// `Action::CloseSemaphore` is done.
    Closed,
    /// `Action::Wait` came back with this status.
    Waited { status: u32 },
}

/// What the driver does next.
#[derive(Debug, Clone, Copy, PartialEq, Eq)]
pub enum Action {
    /// Create an unnamed semaphore with this count and this limit.
    CreateSemaphore { initial_count: i32, maximum_count: i32 },
    /// Make `semaphore` the one that the handler routine releases, then
    /// add the routine to the console's handlers.
    InstallHandler { semaphore: Handle },
    /// Read the calling thread's last error code, before any other call.
    QueryLastError,
    /// Close `semaphore`; the handler routine has none to release from now.
    CloseSemaphore { semaphore: Handle },
    /// Wait on `semaphore` for at most `timeout` milliseconds.
    Wait { semaphore: Handle, timeout: u32 },
    /// Hand this result to the caller: the request is served.
    Return(Result<(), Error>),
}

/// The step of setting up: the state and the action that follow `event` in
/// `state`, or `None` where `event` has no place in `state`.
pub open spec fn init_transition(state: State, event: Event) -> Option<(State, Action)> {
    match (state, event) {
        (State::Uninitialized, Event::Init) => Some(
            (
                State::Creating,
                Action::CreateSemaphore { initial_count: 0, maximum_count: MAX_SEM_COUNT },
            ),
        ),
        (State::Creating, Event::Created { handle }) => if handle == 0 {
            Some((State::CreateFailed, Action::QueryLastError))
        } else {
            Some(
                (
                    State::Installing { semaphore: handle },
                    Action::InstallHandler { semaphore: handle },
                ),
            )
        },
        (State::CreateFailed, Event::LastError { code }) => Some(
            (State::Uninitialized, Action::Return(Err(Error::Os(code)))),
        ),
        (State::Installing { semaphore }, Event::Installed { accepted }) => if accepted {
            Some((State::Armed { semaphore }, Action::Return(Ok(()))))
        } else {
            Some((State::InstallFailed { semaphore }, Action::QueryLastError))
        },
        (State::InstallFailed { semaphore }, Event::LastError { code }) => Some(
            (State::Closing { semaphore, cause: code }, Action::CloseSemaphore { semaphore }),
        ),
        (State::Closing { semaphore, cause }, Event::Closed) => Some(
            (State::Uninitialized, Action::Return(Err(Error::Os(cause)))),
        ),
        _ => None,
    }
}

/// Registers an os signal handler, step by step.
///
/// Starts with `Event::Init` in `State::Uninitialized`. The semaphore is
/// created first, with no signal pending and room for `MAX_SEM_COUNT`; the
/// handler routine is installed only once the semaphore exists. Where the
/// system refuses the routine, its error code is read, the semaphore is
/// closed, and that code is returned from `State::Uninitialized`.
pub fn init_os_handler(state: State, event: Event) -> (step: Option<(State, Action)>)
    ensures
        step == init_transition(state, event),
{
    match (state, event) {
        (State::Uninitialized, Event::Init) => Some(
            (
                State::Creating,
                Action::CreateSemaphore { initial_count: 0, maximum_count: MAX_SEM_COUNT },
            ),
        ),
        (State::Creating, Event::Created { handle }) => {
            if handle == 0 {
                Some((State::CreateFailed, Action::QueryLastError))
            } else {
                Some(
                    (
                        State::Installing { semaphore: handle },
                        Action::InstallHandler { semaphore: handle },
                    ),
                )
            }
        },
        (State::CreateFailed, Event::LastError { code }) => Some(
            (State::Uninitialized, Action::Return(Err(Error::Os(code)))),
        ),
        (State::Installing { semaphore }, Event::Installed { accepted }) => {
            if accepted {
                Some((State::Armed { semaphore }, Action::Return(Ok(()))))
            } else {
                Some((State::InstallFailed { semaphore }, Action::QueryLastError))
            }
        },
        (State::InstallFailed { semaphore }, Event::LastError { code }) => Some(
            (State::Closing { semaphore, cause: code }, Action::CloseSemaphore { semaphore }),
        ),
        (State::Closing { semaphore, cause }, Event::Closed) => Some(
            (State::Uninitialized, Action::Return(Err(Error::Os(cause)))),
        ),
        _ => None,
    }
}

/// Whether `status` is one by which the system says that the wait went
/// wrong: it failed, or it was abandoned.
pub open spec fn wait_went_wrong(status: u32) -> bool {
    status == WAIT_FAILED || status == WAIT_ABANDONED
}

/// What a wait that came back with `status` means for the caller, where
/// `code` is the last error code read after a wait that went wrong.
pub open spec fn wait_result(status: u32, code: i32) -> Result<(), Error> {
    if status == WAIT_OBJECT_0 {
        Ok(())
    } else if wait_went_wrong(status) {
        Err(Error::Os(code))
    } else {
        Err(Error::Unexpected(status))
    }
}

/// The step of waiting: the state and the action that follow `event` in
/// `state`, or `None` where `event` has no place in `state`.
pub open spec fn block_transition(state: State, event: Event) -> Option<(State, Action)> {
    match (state, event) {
        (State::Armed { semaphore }, Event::Block) => Some(
            (State::Waiting { semaphore }, Action::Wait { semaphore, timeout: INFINITE }),
        ),
        (State::Waiting { semaphore }, Event::Waited { status }) => if wait_went_wrong(status) {
            Some((State::WaitFailed { semaphore }, Action::QueryLastError))
        } else {
            Some((State::Armed { semaphore }, Action::Return(wait_result(status, 0))))
        },
        (State::WaitFailed { semaphore }, Event::LastError { code }) => Some(
            (State::Armed { semaphore }, Action::Return(Err(Error::Os(code)))),
        ),
        _ => None,
    }
}

/// Blocks until a Ctrl-C signal is received, step by step.
///
/// Starts with `Event::Block` in `State::Armed`. The wait has no timeout.
/// A wait that ends signaled returns `Ok`; a wait that failed or was
/// abandoned returns the system's error code, read right after it; any
/// other status is returned as `Error::Unexpected`. The handler stays armed
/// whatever the wait gave.
pub fn block_ctrl_c(state: State, event: Event) -> (step: Option<(State, Action)>)
    ensures
        step == block_transition(state, event),
{
    match (state, event) {
        (State::Armed { semaphore }, Event::Block) => Some(
            (State::Waiting { semaphore }, Action::Wait { semaphore, timeout: INFINITE }),
        ),
        (State::Waiting { semaphore }, Event::Waited { status }) => {
            if status == WAIT_OBJECT_0 {
                Some((State::Armed { semaphore }, Action::Return(Ok(()))))
            } else if status == WAIT_FAILED || status == WAIT_ABANDONED {
                Some((State::WaitFailed { semaphore }, Action::QueryLastError))
            } else {
                Some((State::Armed { semaphore }, Action::Return(Err(Error::Unexpected(status)))))
            }
        },
        (State::WaitFailed { semaphore }, Event::LastError { code }) => Some(
            (State::Armed { semaphore }, Action::Return(Err(Error::Os(code)))),
        ),
        _ => None,
    }
}

/// What the handler routine does when the console reports a control event.
#[derive(Debug, Clone, Copy, PartialEq, Eq)]
pub struct HandlerReply {
    /// By how much the semaphore's count is raised.
    pub release_count: i32,
    /// Whether the routine tells the console that the event is dealt with,
    /// so that no further handler and no default action follows.
    pub handled: bool,
}

/// The handler routine's part for the control event `ctrl_type`: whatever
/// the event, the semaphore is released once, which wakes one waiter or is
/// kept for the next wait, and the event is claimed.
///
/// The routine does nothing else, and nothing fails in it: a release that
/// the system refuses because the count stands at its limit leaves the
/// count there, and the event is claimed all the same.
#[allow(unused_variables)]
pub fn os_handler(ctrl_type: Signal) -> (reply: HandlerReply)
    ensures
        reply.release_count == 1,
        reply.handled,
{
    HandlerReply { release_count: 1, handled: true }
}

} // verus!
