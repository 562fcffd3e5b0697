use ctrlc::error::Error;
use ctrlc::handler::{
    block_ctrl_c, init_os_handler, os_handler, Action, Event, State, INFINITE, MAX_SEM_COUNT,
    WAIT_ABANDONED, WAIT_FAILED, WAIT_OBJECT_0,
};

#[test]
fn limits_and_statuses_have_their_documented_values() {
    assert_eq!(MAX_SEM_COUNT, 255);
    assert_eq!(INFINITE, 0xFFFF_FFFF);
    assert_eq!(WAIT_OBJECT_0, 0);
    assert_eq!(WAIT_FAILED, 0xFFFF_FFFF);
    assert_eq!(WAIT_ABANDONED, 0x80);
}

#[test]
fn init_starts_by_creating_an_empty_semaphore() {
    assert_eq!(
        init_os_handler(State::Uninitialized, Event::Init),
        Some((State::Creating, Action::CreateSemaphore { initial_count: 0, maximum_count: 255 }))
    );
}

#[test]
fn init_installs_the_handler_for_the_created_semaphore() {
    assert_eq!(
        init_os_handler(State::Creating, Event::Created { handle: 0x1234 }),
        Some((
            State::Installing { semaphore: 0x1234 },
            Action::InstallHandler { semaphore: 0x1234 }
        ))
    );
}

#[test]
fn init_is_armed_once_the_handler_is_accepted() {
    assert_eq!(
        init_os_handler(State::Installing { semaphore: 0x1234 }, Event::Installed { accepted: true }),
        Some((State::Armed { semaphore: 0x1234 }, Action::Return(Ok(()))))
    );
}

#[test]
fn init_reads_the_error_code_when_no_semaphore_was_created() {
    assert_eq!(
        init_os_handler(State::Creating, Event::Created { handle: 0 }),
        Some((State::CreateFailed, Action::QueryLastError))
    );
    assert_eq!(
        init_os_handler(State::CreateFailed, Event::LastError { code: 1450 }),
        Some((State::Uninitialized, Action::Return(Err(Error::Os(1450)))))
    );
}

#[test]
fn init_closes_the_semaphore_when_the_handler_is_refused() {
    assert_eq!(
        init_os_handler(State::Installing { semaphore: 0x40 }, Event::Installed { accepted: false }),
        Some((State::InstallFailed { semaphore: 0x40 }, Action::QueryLastError))
    );
    assert_eq!(
        init_os_handler(State::InstallFailed { semaphore: 0x40 }, Event::LastError { code: 87 }),
        Some((
            State::Closing { semaphore: 0x40, cause: 87 },
            Action::CloseSemaphore { semaphore: 0x40 }
        ))
    );
    assert_eq!(
        init_os_handler(State::Closing { semaphore: 0x40, cause: 87 }, Event::Closed),
        Some((State::Uninitialized, Action::Return(Err(Error::Os(87)))))
    );
}

#[test]
fn init_takes_no_event_out_of_place() {
    assert_eq!(init_os_handler(State::Armed { semaphore: 0x40 }, Event::Init), None);
    assert_eq!(init_os_handler(State::Creating, Event::Init), None);
    assert_eq!(init_os_handler(State::Uninitialized, Event::Created { handle: 0x40 }), None);
    assert_eq!(init_os_handler(State::Uninitialized, Event::Closed), None);
    assert_eq!(init_os_handler(State::Creating, Event::Installed { accepted: true }), None);
    assert_eq!(init_os_handler(State::Creating, Event::LastError { code: 5 }), None);
    assert_eq!(
        init_os_handler(State::Installing { semaphore: 0x40 }, Event::Created { handle: 0x44 }),
        None
    );
    assert_eq!(init_os_handler(State::Installing { semaphore: 0x40 }, Event::Closed), None);
    assert_eq!(init_os_handler(State::Uninitialized, Event::Block), None);
    assert_eq!(init_os_handler(State::Armed { semaphore: 0x40 }, Event::Block), None);
    assert_eq!(
        init_os_handler(State::Waiting { semaphore: 0x40 }, Event::Waited { status: 0 }),
        None
    );
}

#[test]
fn block_waits_on_the_armed_semaphore_without_timeout() {
    assert_eq!(
        block_ctrl_c(State::Armed { semaphore: 0x1234 }, Event::Block),
        Some((
            State::Waiting { semaphore: 0x1234 },
            Action::Wait { semaphore: 0x1234, timeout: 0xFFFF_FFFF }
        ))
    );
}

#[test]
fn block_returns_ok_when_the_wait_ends_signaled() {
    assert_eq!(
        block_ctrl_c(State::Waiting { semaphore: 0x1234 }, Event::Waited { status: WAIT_OBJECT_0 }),
        Some((State::Armed { semaphore: 0x1234 }, Action::Return(Ok(()))))
    );
}

#[test]
fn block_returns_the_error_code_of_a_failed_wait() {
    assert_eq!(
        block_ctrl_c(State::Waiting { semaphore: 0x1234 }, Event::Waited { status: WAIT_FAILED }),
        Some((State::WaitFailed { semaphore: 0x1234 }, Action::QueryLastError))
    );
    assert_eq!(
        block_ctrl_c(State::WaitFailed { semaphore: 0x1234 }, Event::LastError { code: 6 }),
        Some((State::Armed { semaphore: 0x1234 }, Action::Return(Err(Error::Os(6)))))
    );
}

#[test]
fn block_returns_the_error_code_of_an_abandoned_wait() {
    assert_eq!(
        block_ctrl_c(State::Waiting { semaphore: 0x1234 }, Event::Waited { status: 0x80 }),
        Some((State::WaitFailed { semaphore: 0x1234 }, Action::QueryLastError))
    );
    assert_eq!(
        block_ctrl_c(State::WaitFailed { semaphore: 0x1234 }, Event::LastError { code: 288 }),
        Some((State::Armed { semaphore: 0x1234 }, Action::Return(Err(Error::Os(288)))))
    );
}

#[test]
fn block_returns_any_other_status_as_unexpected() {
    for status in [1u32, 0x7F, 0x81, 0x102, 0xC0, 0xFFFF_FFFE] {
        assert_eq!(
            block_ctrl_c(State::Waiting { semaphore: 0x1234 }, Event::Waited { status }),
            Some((
                State::Armed { semaphore: 0x1234 },
                Action::Return(Err(Error::Unexpected(status)))
            ))
        );
    }
}

#[test]
fn block_takes_no_event_out_of_place() {
    assert_eq!(block_ctrl_c(State::Uninitialized, Event::Block), None);
    assert_eq!(block_ctrl_c(State::Creating, Event::Block), None);
    assert_eq!(block_ctrl_c(State::Waiting { semaphore: 0x40 }, Event::Block), None);
    assert_eq!(block_ctrl_c(State::Armed { semaphore: 0x40 }, Event::Waited { status: 0 }), None);
    assert_eq!(block_ctrl_c(State::Armed { semaphore: 0x40 }, Event::Init), None);
    assert_eq!(
        block_ctrl_c(State::Waiting { semaphore: 0x40 }, Event::LastError { code: 6 }),
        None
    );
    assert_eq!(
        block_ctrl_c(State::WaitFailed { semaphore: 0x40 }, Event::Waited { status: 0 }),
        None
    );
    assert_eq!(block_ctrl_c(State::CreateFailed, Event::LastError { code: 6 }), None);
    assert_eq!(block_ctrl_c(State::Uninitialized, Event::Init), None);
}

#[test]
fn handler_routine_claims_every_event_and_releases_once() {
    for ctrl_type in [0u32, 1, 2, 5, 6, 3, 4, 7, 0xFFFF_FFFF] {
        let reply = os_handler(ctrl_type);
        assert_eq!(reply.release_count, 1);
        assert!(reply.handled);
    }
}
