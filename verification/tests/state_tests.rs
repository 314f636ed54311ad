use mc_server::process::logs::ServerEvent as ProcessEvent;
use mc_server::process::state::ServerState as ProcessState;
use mc_server::types::server::event::ServerEvent;
use mc_server::types::server::state::ServerState;

fn process_starting_evt() -> ProcessEvent {
    ProcessEvent::Starting {
        mc_version: "1.21.4".to_string(),
        fabric_version: "0.17.3".to_string(),
    }
}

fn starting_evt() -> ServerEvent {
    ServerEvent::Starting {
        mc_version: "1.21.4".to_string(),
        fabric_version: "0.17.3".to_string(),
    }
}

const ALL: [ServerState; 5] = [
    ServerState::Stopped,
    ServerState::Starting,
    ServerState::Running,
    ServerState::Stopping,
    ServerState::Crashed,
];

const ALL_PROCESS: [ProcessState; 5] = [
    ProcessState::Stopped,
    ProcessState::Starting,
    ProcessState::Running,
    ProcessState::Stopping,
    ProcessState::Crashed,
];

#[test]
fn stopped_to_starting() {
    assert_eq!(
        ProcessState::Stopped.next(&process_starting_evt()),
        Some(ProcessState::Starting)
    );
}

#[test]
fn state_starting_to_running_on_ready() {
    assert_eq!(
        ProcessState::Starting.next(&ProcessEvent::Ready("1.0s".into())),
        Some(ProcessState::Running)
    );
    assert_eq!(
        ServerState::Starting.next(&ServerEvent::Ready("1.0s".into())),
        Some(ServerState::Running)
    );
}

#[test]
fn running_to_stopping() {
    assert_eq!(
        ProcessState::Running.next(&ProcessEvent::Stopping),
        Some(ProcessState::Stopping)
    );
}

#[test]
fn crashed_does_not_restart_on_starting_event() {
    assert_eq!(ProcessState::Crashed.next(&process_starting_evt()), None);
}

#[test]
fn state_ready_is_ignored_outside_starting() {
    let evt = ProcessEvent::Ready("1.0s".into());
    assert_eq!(ProcessState::Stopped.next(&evt), None);
    assert_eq!(ProcessState::Running.next(&evt), None);
    assert_eq!(ProcessState::Stopping.next(&evt), None);

    let evt = ServerEvent::Ready("1.0s".into());
    assert_eq!(ServerState::Stopped.next(&evt), None);
    assert_eq!(ServerState::Running.next(&evt), None);
    assert_eq!(ServerState::Stopping.next(&evt), None);
    assert_eq!(ServerState::Crashed.next(&evt), None);
}

#[test]
fn stopping_is_ignored_outside_running() {
    assert_eq!(ProcessState::Stopped.next(&ProcessEvent::Stopping), None);
    assert_eq!(ProcessState::Starting.next(&ProcessEvent::Stopping), None);
}

#[test]
fn state_chat_and_unknown_never_transition() {
    let chat = ProcessEvent::Chat {
        author: "Steve".into(),
        msg: "hi".into(),
    };
    for s in ALL_PROCESS {
        assert_eq!(s.next(&chat), None);
        assert_eq!(s.next(&ProcessEvent::Unknown), None);
    }
    let chat = ServerEvent::Chat {
        author: "Steve".into(),
        msg: "hi".into(),
    };
    for s in ALL {
        assert_eq!(s.next(&chat), None);
        assert_eq!(s.next(&ServerEvent::Unknown), None);
    }
}

#[test]
fn starting_event_never_transitions() {
    for s in ALL {
        assert_eq!(s.next(&starting_evt()), None);
    }
}

#[test]
fn stopping_event_never_transitions() {
    for s in ALL {
        assert_eq!(s.next(&ServerEvent::Stopping), None);
    }
}

#[test]
fn save_events_never_transition() {
    for s in ALL_PROCESS {
        assert_eq!(s.next(&ProcessEvent::Saving), None);
        assert_eq!(s.next(&ProcessEvent::Saved), None);
        assert_eq!(s.next(&ProcessEvent::SaveOff), None);
    }
}

#[test]
fn full_lifecycle_by_events() {
    let s = ProcessState::Stopped;
    let s = s.next(&process_starting_evt()).unwrap();
    let s = s.next(&ProcessEvent::Ready("2.5s".into())).unwrap();
    let s = s.next(&ProcessEvent::Stopping).unwrap();
    assert_eq!(s, ProcessState::Stopping);
}

#[test]
fn state_names() {
    assert_eq!(ProcessState::Stopped.to_display_string(), "Stopped");
    assert_eq!(ProcessState::Starting.to_display_string(), "Starting");
    assert_eq!(ProcessState::Running.to_display_string(), "Running");
    assert_eq!(ProcessState::Stopping.to_display_string(), "Stopping");
    assert_eq!(ProcessState::Crashed.to_display_string(), "Crashed");
    assert_eq!(ServerState::Crashed.to_display_string(), "Crashed");
    assert_eq!(ServerState::Running.to_display_string(), "Running");
}

#[test]
fn running_states() {
    assert!(ProcessState::Running.is_running());
    assert!(ProcessState::Starting.is_running());
    assert!(!ProcessState::Stopped.is_running());
    assert!(!ProcessState::Stopping.is_running());
    assert!(!ProcessState::Crashed.is_running());
}
