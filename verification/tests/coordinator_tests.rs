use contact_broker::agent::{AgentFailure, AgentNote};
use contact_broker::coordinator::{
    shutdown_directive, startup_message, startup_of_message, startup_of_status, status_after,
    Startup, STATUS_PENDING, STATUS_READY,
};

#[test]
fn the_status_register_starts_pending() {
    assert_eq!(STATUS_PENDING, 0);
    assert_eq!(STATUS_READY, 1);
    assert_eq!(startup_of_status(0), Startup::Pending);
    assert_eq!(startup_of_status(1), Startup::Proceed);
    for code in 2..=255u8 {
        assert_eq!(startup_of_status(code), Startup::Abort);
    }
}

#[test]
fn only_the_end_of_start_up_is_published() {
    assert_eq!(status_after(&AgentNote::Ready), Some(1));
    assert_eq!(status_after(&AgentNote::Fatal(AgentFailure::RegistrationRefused)), Some(5));
    assert_eq!(status_after(&AgentNote::Fatal(AgentFailure::SetPollTimeout)), Some(11));
    for note in [
        AgentNote::Progress,
        AgentNote::Idle,
        AgentNote::TransportError,
        AgentNote::UnknownDirective,
        AgentNote::Leaving,
        AgentNote::Left,
        AgentNote::GoodbyeLost,
    ] {
        assert_eq!(status_after(&note), None);
    }
}

#[test]
fn the_controller_follows_the_agent() {
    assert_eq!(startup_of_status(status_after(&AgentNote::Ready).unwrap()), Startup::Proceed);
    for code in 2..=11u8 {
        let failure = AgentFailure::from_code(code).unwrap();
        let status = status_after(&AgentNote::Fatal(failure)).unwrap();
        assert_eq!(status, code);
        assert_eq!(startup_of_status(status), Startup::Abort);
    }
}

#[test]
fn the_one_message_of_start_up() {
    assert_eq!(startup_message(true), "init ok");
    assert_eq!(startup_message(false), "init failed");
    assert_eq!(startup_of_message(startup_message(true)), Startup::Proceed);
    assert_eq!(startup_of_message(startup_message(false)), Startup::Abort);
    assert_eq!(startup_of_message("anything"), Startup::Proceed);
}

#[test]
fn the_directive_to_shut_down() {
    assert_eq!(shutdown_directive(), "shutdown");
}
