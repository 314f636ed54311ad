use mc_server::legacy::config::{BackupCfg, Config, JavaCfg, ServerCfg};
use mc_server::legacy::server::{
    backup_file_name, backup_file_name_now, backup_steps, build_jvm_args, command_line, exit_state,
    has_exited, is_running, react, state_on_start, state_when_jar_missing, state_when_output_opens,
    stop_command, BackupStep,
};
use mc_server::legacy::ServerState as LegacyState;
use mc_server::process::logs::{McLogParser, ServerEvent};

fn config(extra: Vec<String>, nogui: bool) -> Config {
    Config {
        java: JavaCfg {
            path: "java".into(),
            xms: "1G".into(),
            xmx: "2G".into(),
            extra_args: extra,
        },
        server: ServerCfg {
            working_dir: "server".into(),
            jar: "server.jar".into(),
            nogui,
            auto_eula: true,
        },
        backup: BackupCfg { path: "backups".into() },
    }
}

#[test]
fn legacy_save_tracking() {
    assert_eq!(react(LegacyState::Loading, &ServerEvent::Ready("1s".into())), (Some(LegacyState::Running), false));
    assert_eq!(react(LegacyState::Running, &ServerEvent::Ready("1s".into())), (None, false));
    assert_eq!(react(LegacyState::Running, &ServerEvent::Saving), (Some(LegacyState::Saving), false));
    assert_eq!(react(LegacyState::Saving, &ServerEvent::Saved), (Some(LegacyState::Running), true));
    assert_eq!(react(LegacyState::Running, &ServerEvent::Saved), (None, false));
    assert_eq!(react(LegacyState::Loading, &ServerEvent::Stopping), (Some(LegacyState::Stopping), false));
    assert_eq!(react(LegacyState::Saving, &ServerEvent::SaveOff), (None, false));
    assert!(is_running(LegacyState::Loading));
    assert!(is_running(LegacyState::Starting));
    assert!(!is_running(LegacyState::Saving));
    assert!(!is_running(LegacyState::CreatingBackup));
    assert_eq!(exit_state(true), LegacyState::Stopped);
    assert_eq!(exit_state(false), LegacyState::Crashed);
}

#[test]
fn legacy_backup_leaves_a_running_server_running() {
    // the log lines a save-all produces, read by the log reader
    let saving = McLogParser::parse("[14:20:00] [Server thread/INFO]: Saving the game (this may take a moment!)").unwrap();
    let saved = McLogParser::parse("[14:20:01] [Server thread/INFO]: Saved the game").unwrap();
    let (next, confirmed) = react(LegacyState::Running, &saving.event);
    assert_eq!((next, confirmed), (Some(LegacyState::Saving), false));
    let (next, confirmed) = react(next.unwrap(), &saved.event);
    assert_eq!((next, confirmed), (Some(LegacyState::Running), true));
}

#[test]
fn legacy_start_states() {
    assert_eq!(state_on_start(), LegacyState::Starting);
    assert_eq!(state_when_output_opens(), LegacyState::Loading);
    assert_eq!(state_when_jar_missing(), LegacyState::Stopped);
}

#[test]
fn legacy_jvm_args() {
    let args = build_jvm_args(&config(vec!["-XX:+UseG1GC".into()], true), "/srv/server.jar");
    assert_eq!(args, vec!["-Xms1G", "-Xmx2G", "-XX:+UseG1GC", "-jar", "/srv/server.jar", "nogui"]);
    let args = build_jvm_args(&config(vec![], false), "s.jar");
    assert_eq!(args, vec!["-Xms1G", "-Xmx2G", "-jar", "s.jar"]);
}

#[test]
fn legacy_commands_and_stop() {
    assert_eq!(command_line("say hi"), "say hi\n");
    assert_eq!(command_line(""), "\n");
    assert_eq!(stop_command(LegacyState::Stopped), None);
    assert_eq!(stop_command(LegacyState::Running), Some("stop\n".to_string()));
    assert_eq!(stop_command(LegacyState::Crashed), Some("stop\n".to_string()));
    assert!(has_exited(LegacyState::Stopped));
    assert!(has_exited(LegacyState::Crashed));
    assert!(!has_exited(LegacyState::Stopping));
}

#[test]
fn legacy_hot_backup_script() {
    let steps = backup_steps(LegacyState::Running);
    assert_eq!(
        steps,
        vec![
            BackupStep::Command("save-off".into()),
            BackupStep::ListenForSave,
            BackupStep::Command("save-all".into()),
            BackupStep::AwaitSave(10),
            BackupStep::Archive,
            BackupStep::Command("save-on".into()),
        ]
    );
    assert_eq!(backup_steps(LegacyState::Stopped), vec![BackupStep::Archive]);
    assert_eq!(backup_steps(LegacyState::Saving), vec![BackupStep::Archive]);
}

#[test]
fn backup_names() {
    assert_eq!(backup_file_name("2024-05-01_12-00-00"), "backup_2024-05-01_12-00-00.tar.gz");
    let now = backup_file_name_now();
    assert!(now.starts_with("backup_") && now.ends_with(".tar.gz"));
    // backup_YYYY-MM-DD_HH-MM-SS.tar.gz
    assert_eq!(now.len(), "backup_".len() + 19 + ".tar.gz".len());
    let stamp: Vec<char> = now["backup_".len()..now.len() - ".tar.gz".len()].chars().collect();
    for (i, c) in stamp.iter().enumerate() {
        match i {
            4 | 7 | 13 | 16 => assert_eq!(*c, '-'),
            10 => assert_eq!(*c, '_'),
            _ => assert!(c.is_ascii_digit()),
        }
    }
}
