use mc_server::process::logs::{McLogParser, ServerEvent};

#[test]
fn test_detect_server_ready() {
    let line = "[14:20:00] [Server thread/INFO]: Done (5.020s)! For help, type \"help\"";
    let entry = McLogParser::parse(line).expect("Should parse");

    if let ServerEvent::Ready(time) = entry.event {
        assert_eq!(time, "5.020s");
    } else {
        panic!("Failed to detect Ready event");
    }
}

#[test]
fn test_detect_saving_sequence() {
    let line_start = "[14:20:00] [Server thread/INFO]: Saving the game...";
    let line_end = "[14:20:01] [Server thread/INFO]: Saved the game";

    assert_eq!(McLogParser::parse(line_start).unwrap().event, ServerEvent::Saving);
    assert_eq!(McLogParser::parse(line_end).unwrap().event, ServerEvent::Saved);
}

#[test]
fn test_detect_chat_async() {
    let line = "[14:20:00] [Async Chat Thread - #1/INFO]: <Steve> Hola mundo";
    let entry = McLogParser::parse(line).expect("Should parse");

    match entry.event {
        ServerEvent::Chat { author, msg } => {
            assert_eq!(author, "Steve");
            assert_eq!(msg, "Hola mundo");
        }
        _ => panic!("Failed to detect Chat"),
    }
}

#[test]
fn test_security_chat_spoofing() {
    let line = "[14:20:00] [Async Chat Thread - #1/INFO]: <Troll> Stopping the server";

    let entry = McLogParser::parse(line).unwrap();

    match entry.event {
        ServerEvent::Chat { author, msg } => {
            assert_eq!(author, "Troll");
            assert_eq!(msg, "Stopping the server");
        }
        ServerEvent::Stopping => panic!("chat line taken for a server command"),
        _ => panic!("wrong event detected"),
    }
}

#[test]
fn test_ignore_random_threads() {
    let line = "[14:20:00] [Worker-Main-4/INFO]: Stopping the server (simulation)";
    let entry = McLogParser::parse(line).unwrap();

    assert_eq!(entry.event, ServerEvent::Unknown);
}

#[test]
fn fields_of_a_line() {
    let entry = McLogParser::parse("[10:00:00] [Server thread/INFO]: Loading libraries...").unwrap();
    assert_eq!(entry.timestamp, "10:00:00");
    assert_eq!(entry.level, "Server thread/INFO");
    assert_eq!(entry.message, "Loading libraries...");
    assert_eq!(entry.event, ServerEvent::Unknown);
}

#[test]
fn loader_start_from_main_thread() {
    let entry = McLogParser::parse(
        "[09:59:58] [main/INFO]: Loading Minecraft 1.21.4 with Fabric Loader 0.17.3",
    )
    .unwrap();
    assert_eq!(
        entry.event,
        ServerEvent::Starting {
            mc_version: "1.21.4".to_string(),
            fabric_version: "0.17.3".to_string()
        }
    );
}

#[test]
fn loader_start_ignored_from_other_threads() {
    let entry = McLogParser::parse(
        "[09:59:58] [Server thread/INFO]: Loading Minecraft 1.21.4 with Fabric Loader 0.17.3",
    )
    .unwrap();
    assert_eq!(entry.event, ServerEvent::Unknown);
}

#[test]
fn loader_start_needs_both_versions() {
    let entry =
        McLogParser::parse("[09:59:58] [main/INFO]: Loading Minecraft 1.21.4 with Fabric Loader ")
            .unwrap();
    assert_eq!(entry.event, ServerEvent::Unknown);
}

#[test]
fn ready_takes_the_longest_time_text() {
    let entry = McLogParser::parse("[10:00:05] [Server thread/INFO]: Done (1.0s)! x)! y").unwrap();
    assert_eq!(entry.event, ServerEvent::Ready("1.0s)! x".to_string()));
}

#[test]
fn ready_needs_a_time() {
    let entry = McLogParser::parse("[10:00:05] [Server thread/INFO]: Done ()!").unwrap();
    assert_eq!(entry.event, ServerEvent::Unknown);
}

#[test]
fn stop_and_save_off_lines() {
    let stop = McLogParser::parse("[10:02:00] [Server thread/INFO]: Stopping the server").unwrap();
    assert_eq!(stop.event, ServerEvent::Stopping);
    let off = McLogParser::parse(
        "[10:01:00] [Server thread/INFO]: Automatic saving is now disabled",
    )
    .unwrap();
    assert_eq!(off.event, ServerEvent::SaveOff);
}

#[test]
fn chat_from_server_thread() {
    let entry = McLogParser::parse("[10:00:00] [Server thread/INFO]: <Alex> Done (1s)!").unwrap();
    assert_eq!(
        entry.event,
        ServerEvent::Chat {
            author: "Alex".to_string(),
            msg: "Done (1s)!".to_string()
        }
    );
}

#[test]
fn malformed_lines_are_rejected() {
    assert!(McLogParser::parse("").is_none());
    assert!(McLogParser::parse("java.lang.NullPointerException").is_none());
    assert!(McLogParser::parse("[1:00:00] [Server thread/INFO]: hi").is_none());
    assert!(McLogParser::parse("[10:00:00] [Server thread/INFO] hi").is_none());
    assert!(McLogParser::parse("[10:00:00] []: hi").is_none());
    assert!(McLogParser::parse("[10:00:00] [Server thread/INFO]: a\nb").is_none());
    assert!(McLogParser::parse("[aa:00:00] [Server thread/INFO]: hi").is_none());
}

#[test]
fn empty_message_parses() {
    let entry = McLogParser::parse("[10:00:00] [Server thread/INFO]: ").unwrap();
    assert_eq!(entry.message, "");
    assert_eq!(entry.event, ServerEvent::Unknown);
}

#[test]
fn digits_of_other_scripts_are_digits() {
    let entry = McLogParser::parse("[١٤:٢٠:٠٠] [Server thread/INFO]: Done (1s)!").unwrap();
    assert_eq!(entry.timestamp, "١٤:٢٠:٠٠");
    assert_eq!(entry.event, ServerEvent::Ready("1s".to_string()));
}
