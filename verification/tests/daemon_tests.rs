use mc_server::config::{ClientCfg, McConfig, OrphanPolicy};
use mc_server::daemon::actor::{
    already_stopped_reply, event_log_level, op_reply, shutdown_after_forced,
    shutdown_after_graceful, start_needs_force_kill, start_reply, record_partial_log, PARTIAL_LOG_LINES, stop_after_forced,
    stop_after_graceful, stop_plan, version_label, LogLevel, StopPlan, Waited,
};
use mc_server::daemon::protocol::{is_payload_none, Op, ResponsePayload, TcpResponse};
use mc_server::daemon::recovery::{
    classify, force_kill_failed, ignored_force_kill, kill_step, orphan_action, pid_to_check,
    pidfile_display, recovery_outcome, refusal_message, should_report_alive, sigterm_failed, before_signal, SignalLook, KillPhase, KillStep,
    Orphan, OrphanAction,
};
use mc_server::daemon::tcp::{
    invalid_json_response, op_response, request_text, shutdown_report, start_response,
    status_response, stop_response, ShutdownOutcome,
};
use mc_server::daemon::wait::{state_channel_closed, wait_step};
use mc_server::process::error::Error;
use mc_server::process::logs::{McLog, ServerEvent};
use mc_server::process::state::{McVersion, ServerState};

#[test]
fn config_defaults() {
    let cfg = McConfig::default();
    assert_eq!(cfg.java.path, "java");
    assert_eq!(cfg.server.working_dir, "runtime/server");
    assert_eq!(cfg.server.version, "1.21.10");
    assert_eq!(cfg.daemon.stop_timeout_secs, 30);
    assert_eq!(cfg.daemon.orphan_policy, OrphanPolicy::Refuse);
    assert_eq!(cfg.client.get_addr(), "127.0.0.1:7110");
}

#[test]
fn socket_addresses() {
    let c = ClientCfg { host: "0.0.0.0".to_string(), port: 0 };
    assert_eq!(c.get_addr(), "0.0.0.0:0");
    let c = ClientCfg { host: "example.org".to_string(), port: 65535 };
    assert_eq!(c.get_addr(), "example.org:65535");
}

#[test]
fn responses() {
    let ok = TcpResponse::ok();
    assert!(ok.success && ok.error.is_none() && is_payload_none(&ok.data));
    let with = TcpResponse::ok_with(ResponsePayload::Simple("hi".to_string()));
    assert!(with.success && !is_payload_none(&with.data));
    let err = TcpResponse::error("bad");
    assert!(!err.success);
    assert_eq!(err.error.as_deref(), Some("bad"));
    assert!(is_payload_none(&err.data));
}

#[test]
fn partial_logs_keep_the_latest_lines() {
    let mut partial: Vec<String> = Vec::new();
    for i in 0..25 {
        let log = McLog {
            timestamp: "12:00:00".into(),
            level: "Server thread/INFO".into(),
            message: format!("line {i}"),
            event: ServerEvent::Unknown,
        };
        record_partial_log(&mut partial, &log);
    }
    assert_eq!(partial.len(), PARTIAL_LOG_LINES);
    assert_eq!(partial.first().unwrap(), "line 5");
    assert_eq!(partial.last().unwrap(), "line 24");
}

#[test]
fn start_replies() {
    let logs = vec!["Loading libraries".to_string(), "Preparing level \"world\"".to_string()];
    let r = start_reply(Waited::Reached, "1.21.4".into(), "127.0.0.1:7110".into(), 60, &logs);
    assert_eq!(r, Ok(("1.21.4".to_string(), "127.0.0.1:7110".to_string())));
    let r = start_reply(Waited::Failed("Server crashed".into()), "v".into(), "a".into(), 60, &logs);
    assert_eq!(r, Err("Server crashed".to_string()));
    let r = start_reply(Waited::TimedOut, "v".into(), "a".into(), 120, &vec![]);
    assert_eq!(r, Err("Timeout: el servidor tardó más de 120s en arrancar.".to_string()));
    let r = start_reply(Waited::TimedOut, "v".into(), "a".into(), 60, &logs);
    assert_eq!(
        r,
        Err("Timeout: el servidor tardó más de 60s en arrancar.\nLoading libraries\nPreparing level \"world\"".to_string())
    );
    assert!(start_needs_force_kill(&Waited::TimedOut));
    assert!(!start_needs_force_kill(&Waited::Reached));
}

#[test]
fn version_labels() {
    let v = Some(McVersion { mc_version: "1.21.4".into(), fabric_version: "0.17.3".into() });
    assert_eq!(version_label(&v), "1.21.4");
    assert_eq!(version_label(&None), "Unknown");
}

#[test]
fn stop_is_idempotent() {
    assert_eq!(stop_plan(ServerState::Stopped), StopPlan::AlreadyStopped);
    assert_eq!(stop_plan(ServerState::Crashed), StopPlan::AlreadyStopped);
    assert_eq!(stop_plan(ServerState::Running), StopPlan::SendStop);
    assert_eq!(stop_plan(ServerState::Starting), StopPlan::SendStop);
    assert_eq!(stop_plan(ServerState::Stopping), StopPlan::AwaitStopped);
    assert_eq!(already_stopped_reply(), Ok("El servidor ya estaba detenido.".to_string()));
}

#[test]
fn terminal_states_can_be_restarted() {
    for s in [ServerState::Stopped, ServerState::Crashed] {
        assert!(!s.is_running());
        assert_eq!(stop_plan(s), StopPlan::AlreadyStopped);
    }
}

#[test]
fn stop_escalation() {
    assert_eq!(stop_after_graceful(&Waited::Reached), Some(Ok("Server Stopped".to_string())));
    assert_eq!(stop_after_graceful(&Waited::TimedOut), None);
    assert_eq!(stop_after_graceful(&Waited::Failed("x".into())), None);
    assert_eq!(stop_after_forced(&Waited::Reached), Ok("Server force-killed".to_string()));
    assert_eq!(
        stop_after_forced(&Waited::TimedOut),
        Err("force kill did not stop the jvm".to_string())
    );
    assert_eq!(shutdown_after_graceful(&Waited::Reached), Some(Ok(())));
    assert_eq!(shutdown_after_graceful(&Waited::TimedOut), None);
    assert_eq!(
        shutdown_after_forced(&Waited::TimedOut),
        Err("force kill did not stop the jvm".to_string())
    );
}

#[test]
fn op_replies() {
    assert_eq!(op_reply(&Ok(())), Ok(()));
    assert_eq!(
        op_reply(&Err(Error::WriteWhileNotRunningError)),
        Err("Error sending Command.".to_string())
    );
}

#[test]
fn event_levels() {
    assert_eq!(event_log_level(&ServerEvent::Unknown), None);
    assert_eq!(
        event_log_level(&ServerEvent::Chat { author: "a".into(), msg: "b".into() }),
        Some(LogLevel::Debug)
    );
    assert_eq!(event_log_level(&ServerEvent::Saved), Some(LogLevel::Info));
}

#[test]
fn waiting_for_states() {
    assert_eq!(wait_step(ServerState::Running, ServerState::Running), Some(Ok(())));
    assert_eq!(wait_step(ServerState::Starting, ServerState::Running), None);
    assert_eq!(
        wait_step(ServerState::Crashed, ServerState::Running),
        Some(Err("El servidor se detuvo inesperadamente (Estado: Crashed)".to_string()))
    );
    assert_eq!(
        wait_step(ServerState::Stopped, ServerState::Running),
        Some(Err("El servidor se detuvo inesperadamente (Estado: Stopped)".to_string()))
    );
    assert_eq!(wait_step(ServerState::Crashed, ServerState::Stopped), Some(Ok(())));
    assert_eq!(wait_step(ServerState::Stopping, ServerState::Stopped), None);
    assert_eq!(
        wait_step(ServerState::Crashed, ServerState::Starting),
        Some(Err("Server crashed".to_string()))
    );
    assert_eq!(state_channel_closed(), Err("Internal error: State channel closed".to_string()));
}

#[test]
fn orphan_classification() {
    assert_eq!(classify(false, "java", Some(true)), Orphan::Stale);
    assert_eq!(classify(true, "bash", Some(true)), Orphan::Stale);
    assert_eq!(classify(true, "Java.exe", Some(true)), Orphan::Alive);
    assert_eq!(classify(true, "openjdk-jAVa", None), Orphan::Alive);
    assert_eq!(classify(true, "java", Some(false)), Orphan::Stale);
    assert_eq!(classify(true, "jav", None), Orphan::Stale);
}

#[test]
fn orphan_actions() {
    assert_eq!(orphan_action(Orphan::Stale, OrphanPolicy::Kill), OrphanAction::RemoveStalePidfile);
    assert_eq!(orphan_action(Orphan::Alive, OrphanPolicy::Refuse), OrphanAction::Refuse);
    assert_eq!(orphan_action(Orphan::Alive, OrphanPolicy::Kill), OrphanAction::Kill);
    assert_eq!(pid_to_check(&Ok(Some(9))), Some(9));
    assert_eq!(pid_to_check(&Ok(None)), None);
    assert_eq!(pid_to_check(&Err(Error::JarFileDoesNotExist)), None);
}

#[test]
fn recovery_fails_only_on_a_refused_orphan() {
    assert_eq!(recovery_outcome(OrphanAction::RemoveStalePidfile, 9, "/srv", "/srv/runtime/server.pid"), Ok(()));
    // a kill, whether it worked or not, lets the daemon start
    assert_eq!(recovery_outcome(OrphanAction::Kill, 9, "/srv", "/srv/runtime/server.pid"), Ok(()));
    assert_eq!(
        recovery_outcome(OrphanAction::Refuse, 9, "/srv", "/srv/runtime/server.pid"),
        Err("orphan jvm pid 9 in /srv\nkill it or delete /srv/runtime/server.pid, or set [daemon] orphan_policy = \"kill\"".to_string())
    );
}

#[test]
fn refusal_messages() {
    assert_eq!(pidfile_display("/srv/mc"), "/srv/mc/runtime/server.pid");
    assert_eq!(
        refusal_message(4242, "/srv/mc", "/srv/mc/runtime/server.pid"),
        "orphan jvm pid 4242 in /srv/mc\nkill it or delete /srv/mc/runtime/server.pid, or set [daemon] orphan_policy = \"kill\""
    );
    assert_eq!(sigterm_failed(7), "SIGTERM failed for pid 7");
    assert_eq!(force_kill_failed(7), "force kill failed for pid 7");
    assert_eq!(ignored_force_kill(7), "pid 7 ignored force kill");
}

#[test]
fn no_signal_for_a_process_already_gone() {
    assert_eq!(before_signal(false), SignalLook::AlreadyGone);
    assert_eq!(before_signal(true), SignalLook::Signal);
}

#[test]
fn kill_loop_steps() {
    assert_eq!(kill_step(KillPhase::Graceful, 0, true), KillStep::Sleep(200));
    assert_eq!(kill_step(KillPhase::Graceful, 29999, true), KillStep::Sleep(200));
    assert_eq!(kill_step(KillPhase::Graceful, 30000, true), KillStep::Escalate);
    assert_eq!(kill_step(KillPhase::Graceful, 100, false), KillStep::Exited);
    assert_eq!(kill_step(KillPhase::Forced, 4999, true), KillStep::Sleep(100));
    assert_eq!(kill_step(KillPhase::Forced, 5000, true), KillStep::GiveUp);
    assert_eq!(kill_step(KillPhase::Forced, 5000, false), KillStep::Exited);
    assert!(should_report_alive(5000));
    assert!(!should_report_alive(4999));
}

#[test]
fn request_lines() {
    assert_eq!(request_text("   \t\r"), None);
    assert_eq!(request_text(""), None);
    let t: String = request_text("  {\"action\":\"Status\"}\r").unwrap().into_iter().collect();
    assert_eq!(t, "{\"action\":\"Status\"}");
}

#[test]
fn responses_to_requests() {
    let r = invalid_json_response("expected value at line 1 column 1");
    assert!(!r.success);
    assert_eq!(r.error.as_deref(), Some("Invalid Json: expected value at line 1 column 1"));

    let r = status_response(ServerState::Running);
    assert!(r.success);
    assert!(matches!(r.data, ResponsePayload::Status(ServerState::Running)));

    let r = start_response(Ok(("1.21.4".into(), "127.0.0.1:7110".into())));
    assert!(r.success);
    match r.data {
        ResponsePayload::Start(d) => {
            assert_eq!(d.version, "1.21.4");
            assert_eq!(d.address, "127.0.0.1:7110");
        }
        _ => panic!("start data expected"),
    }
    let r = start_response(Err("boom".into()));
    assert!(!r.success);
    assert_eq!(r.error.as_deref(), Some("boom"));

    let r = stop_response(Ok("Server Stopped".into()));
    assert!(r.success);
    assert!(matches!(r.data, ResponsePayload::Simple(ref m) if m == "Server Stopped"));

    let op = Op { player: "Steve".into(), op: true };
    let r = op_response(Ok(()), op.clone());
    assert!(r.success);
    assert!(matches!(r.data, ResponsePayload::OpResult(ref o) if o.player == "Steve" && o.op));
    let r = op_response(Err("Error sending Command.".into()), op);
    assert!(!r.success);
    assert_eq!(r.error.as_deref(), Some("Error sending Command."));
}

#[test]
fn shutdown_reports() {
    assert_eq!(shutdown_report(ShutdownOutcome::Replied(Ok(()))), (false, "daemon stopped".to_string()));
    assert_eq!(
        shutdown_report(ShutdownOutcome::Replied(Err("x".into()))),
        (true, "shutdown error: x".to_string())
    );
    assert_eq!(shutdown_report(ShutdownOutcome::ChannelClosed), (true, "actor channel closed".to_string()));
    assert_eq!(shutdown_report(ShutdownOutcome::NoReply), (true, "actor exited without reply".to_string()));
    assert_eq!(shutdown_report(ShutdownOutcome::TimedOut), (true, "actor reply timed out".to_string()));
}

#[test]
fn shutdown_wait_outlasts_the_actor() {
    let d = mc_server::config::DaemonCfg::default();
    assert!(d.stop_timeout_secs + d.force_kill_timeout_secs < mc_server::daemon::tcp::SHUTDOWN_REPLY_SECS);
    assert_eq!(mc_server::daemon::tcp::SHUTDOWN_REPLY_SECS, 45);
}
