use mc_server::config::McConfig;
use mc_server::process::error::Error;
use mc_server::process::logs::ServerEvent;
use mc_server::process::pidfile::{self, FileOutcome};
use mc_server::process::process::{
    apply_event, build_jvm_args, command_line, exit_state, exit_steps, is_ready_event, metrics_pid,
    op_command, promote_when_ready, start_is_needed, state_after_stop_sent, stderr_log,
    stderr_log_at, stdout_log, stop_command, ExitStep,
};
use mc_server::process::state::ServerState;

#[test]
fn jvm_args_default_config() {
    let cfg = McConfig::default();
    let args = build_jvm_args(&cfg, "/srv/mc/server.jar");
    assert_eq!(args, vec!["-Xms1G", "-Xmx2G", "-jar", "/srv/mc/server.jar", "-nogui"]);
}

#[test]
fn jvm_args_with_extras_and_gui() {
    let mut cfg = McConfig::default();
    cfg.java.xms = "512M".to_string();
    cfg.java.extra_args = vec!["-XX:+UseG1GC".to_string(), "-Dfoo=bar".to_string()];
    cfg.server.nogui = false;
    let args = build_jvm_args(&cfg, "server.jar");
    assert_eq!(
        args,
        vec!["-Xms512M", "-Xmx2G", "-XX:+UseG1GC", "-Dfoo=bar", "-jar", "server.jar"]
    );
}

#[test]
fn command_line_strips_line_feeds() {
    let line = command_line(ServerState::Running, "say a\nstop\n").unwrap();
    assert_eq!(line, "say astop\n");
    let line = command_line(ServerState::Starting, "list").unwrap();
    assert_eq!(line, "list\n");
}

#[test]
fn command_line_needs_a_running_server() {
    for s in [ServerState::Stopped, ServerState::Stopping, ServerState::Crashed] {
        assert!(matches!(command_line(s, "list"), Err(Error::WriteWhileNotRunningError)));
    }
}

#[test]
fn stop_command_by_state() {
    assert!(stop_command(ServerState::Stopped).is_none());
    assert_eq!(stop_command(ServerState::Running).unwrap().unwrap(), "stop\n");
    assert!(matches!(
        stop_command(ServerState::Crashed),
        Some(Err(Error::WriteWhileNotRunningError))
    ));
}

#[test]
fn op_and_deop_commands() {
    assert_eq!(op_command(ServerState::Running, true, "Steve").unwrap(), "op Steve\n");
    assert_eq!(op_command(ServerState::Running, false, "Steve").unwrap(), "deop Steve\n");
}

#[test]
fn op_refuses_white_space_in_names() {
    assert!(matches!(
        op_command(ServerState::Running, true, "Steve stop"),
        Err(Error::WriteStdinFailed(e))
            if e.kind() == std::io::ErrorKind::InvalidInput
                && e.to_string() == "Player name cannot contain whitespace"
    ));
    assert!(matches!(
        op_command(ServerState::Running, true, "Steve\u{3000}x"),
        Err(Error::WriteStdinFailed(e)) if e.kind() == std::io::ErrorKind::InvalidInput
    ));
    // the name is refused before the running check
    assert!(matches!(
        op_command(ServerState::Stopped, true, "Steve stop"),
        Err(Error::WriteStdinFailed(e)) if e.kind() == std::io::ErrorKind::InvalidInput
    ));
    assert!(matches!(
        op_command(ServerState::Stopped, true, "Steve"),
        Err(Error::WriteWhileNotRunningError)
    ));
}

#[test]
fn stdout_lines_become_entries() {
    let log = stdout_log("[10:00:05] [Server thread/INFO]: Done (1.0s)!".to_string());
    assert_eq!(log.timestamp, "10:00:05");
    assert_eq!(log.event, ServerEvent::Ready("1.0s".to_string()));
    let raw = stdout_log("\tat java.base/Thread.run".to_string());
    assert_eq!(raw.timestamp, "");
    assert_eq!(raw.level, "RAW");
    assert_eq!(raw.message, "\tat java.base/Thread.run");
    assert_eq!(raw.event, ServerEvent::Unknown);
}

#[test]
fn stderr_lines_become_entries() {
    let log = stderr_log_at("2024-01-01T00:00:00+00:00".to_string(), "oops".to_string());
    assert_eq!(log.timestamp, "2024-01-01T00:00:00+00:00");
    assert_eq!(log.level, "STDERR");
    assert_eq!(log.message, "oops");
    let now = stderr_log("boom".to_string());
    assert_eq!(now.level, "STDERR");
    assert_eq!(now.message, "boom");
    // YYYY-MM-DDTHH:MM:SS, an optional fraction, then +HH:MM or -HH:MM
    let t: Vec<char> = now.timestamp.chars().collect();
    assert!(t.len() >= 25);
    assert_eq!(t[4], '-');
    assert_eq!(t[7], '-');
    assert_eq!(t[10], 'T');
    assert_eq!(t[13], ':');
    assert_eq!(t[16], ':');
    let offset = &t[t.len() - 6..];
    assert!(offset[0] == '+' || offset[0] == '-');
    assert_eq!(offset[3], ':');
    assert!([25, 29, 32, 35].contains(&t.len()));
}

#[test]
fn events_publish_versions_and_move_state() {
    let evt = ServerEvent::Starting {
        mc_version: "1.21.4".to_string(),
        fabric_version: "0.17.3".to_string(),
    };
    let (version, next) = apply_event(ServerState::Stopped, &evt);
    let version = version.unwrap();
    assert_eq!(version.mc_version, "1.21.4");
    assert_eq!(version.fabric_version, "0.17.3");
    // a loader line publishes the version but moves no state
    assert_eq!(next, None);
    let (_, next) = apply_event(ServerState::Starting, &evt);
    assert_eq!(next, None);
    let (version, next) = apply_event(ServerState::Starting, &ServerEvent::Ready("1s".into()));
    assert!(version.is_none());
    assert_eq!(next, Some(ServerState::Running));
    // stopping is imperative: a stop line moves nothing
    assert_eq!(apply_event(ServerState::Running, &ServerEvent::Stopping).1, None);
    assert_eq!(apply_event(ServerState::Running, &ServerEvent::Ready("1s".into())).1, None);
}

#[test]
fn exit_and_readiness() {
    assert_eq!(exit_state(true), ServerState::Stopped);
    assert_eq!(exit_state(false), ServerState::Crashed);
    assert_eq!(promote_when_ready(ServerState::Starting), Some(ServerState::Running));
    assert_eq!(promote_when_ready(ServerState::Crashed), None);
    assert_eq!(promote_when_ready(ServerState::Stopping), None);
    assert!(is_ready_event(&ServerEvent::Ready("1s".into())));
    assert!(!is_ready_event(&ServerEvent::Saved));
}

#[test]
fn stop_publishes_stopping() {
    assert_eq!(state_after_stop_sent(ServerState::Running), Some(ServerState::Stopping));
    assert_eq!(state_after_stop_sent(ServerState::Starting), Some(ServerState::Stopping));
    assert_eq!(state_after_stop_sent(ServerState::Stopped), None);
    assert_eq!(state_after_stop_sent(ServerState::Crashed), None);
}

#[test]
fn no_second_jvm_while_one_is_alive() {
    assert!(start_is_needed(ServerState::Stopped));
    assert!(start_is_needed(ServerState::Crashed));
    assert!(!start_is_needed(ServerState::Starting));
    assert!(!start_is_needed(ServerState::Running));
    assert!(!start_is_needed(ServerState::Stopping));
}

#[test]
fn reaper_steps() {
    assert_eq!(
        exit_steps(true),
        vec![ExitStep::ClearVersion, ExitStep::Publish(ServerState::Stopped), ExitStep::RemovePidFile]
    );
    assert_eq!(
        exit_steps(false),
        vec![ExitStep::ClearVersion, ExitStep::Publish(ServerState::Crashed), ExitStep::RemovePidFile]
    );
}

#[test]
fn metrics_only_while_running() {
    assert_eq!(metrics_pid(ServerState::Running, Some(42)), Some(42));
    assert_eq!(metrics_pid(ServerState::Starting, None), None);
    assert_eq!(metrics_pid(ServerState::Stopped, Some(42)), None);
}

#[test]
fn pid_file_paths() {
    assert_eq!(pidfile::path("runtime/server"), "runtime/server/runtime/server.pid");
    assert_eq!(pidfile::path("/srv/mc/"), "/srv/mc/runtime/server.pid");
    assert_eq!(pidfile::tmp_path("/srv/mc"), "/srv/mc/runtime/server.pid.tmp");
    assert_eq!(pidfile::runtime_dir_of("/srv/mc"), "/srv/mc/runtime");
}

#[test]
fn pid_file_round_trip() {
    for pid in [0u32, 7, 12345, u32::MAX] {
        let text = pidfile::contents(pid);
        assert_eq!(text, format!("{}\n", pid));
        assert_eq!(pidfile::parse_pid(&text), Some(pid));
    }
}

#[test]
fn pid_parsing_follows_from_str() {
    assert_eq!(pidfile::parse_pid("  42 \r\n"), Some(42));
    assert_eq!(pidfile::parse_pid("+42"), Some(42));
    assert_eq!(pidfile::parse_pid("007"), Some(7));
    assert_eq!(pidfile::parse_pid("-1"), None);
    assert_eq!(pidfile::parse_pid("+"), None);
    assert_eq!(pidfile::parse_pid(""), None);
    assert_eq!(pidfile::parse_pid("4294967296"), None);
    assert_eq!(pidfile::parse_pid("12 34"), None);
    for s in ["  42 \r\n", "+42", "007", "-1", "+", "", "4294967296", "12 34", "99999999999999999999"] {
        assert_eq!(pidfile::parse_pid(s), s.trim().parse::<u32>().ok());
    }
}

#[test]
fn reading_the_pid_file() {
    assert_eq!(pidfile::interpret_read(FileOutcome::Done("123\n".to_string())).unwrap(), Some(123));
    assert!(matches!(
        pidfile::interpret_read(FileOutcome::Done("abc".to_string())),
        Err(Error::ReadPidFileFailed(e)) if e.kind() == std::io::ErrorKind::InvalidData
    ));
    assert_eq!(pidfile::interpret_read(FileOutcome::Missing).unwrap(), None);
    let denied = std::io::Error::new(std::io::ErrorKind::PermissionDenied, "no");
    assert!(matches!(
        pidfile::interpret_read(FileOutcome::Failed(denied)),
        Err(Error::ReadPidFileFailed(e)) if e.kind() == std::io::ErrorKind::PermissionDenied
    ));
}

#[test]
fn removing_the_pid_file() {
    assert!(pidfile::interpret_remove(FileOutcome::Done(())).is_ok());
    assert!(pidfile::interpret_remove(FileOutcome::Missing).is_ok());
    let denied = std::io::Error::new(std::io::ErrorKind::PermissionDenied, "no");
    assert!(matches!(
        pidfile::interpret_remove(FileOutcome::Failed(denied)),
        Err(Error::RemovePidFileFailed(e)) if e.kind() == std::io::ErrorKind::PermissionDenied
    ));
}
