use mc_server::cli::client::TcpClient;
use mc_server::cli::config::{AppConfig, ServerConfig};
use mc_server::cli::report::{action_label, op_outcome, start_outcome, status_outcome, stop_outcome, Outcome};
use mc_server::daemon::protocol::{Op, ResponsePayload, StartData, TcpResponse};
use mc_server::process::state::ServerState;

#[test]
fn client_keeps_its_address() {
    let c = TcpClient::new("127.0.0.1:7110");
    assert_eq!(c.address(), "127.0.0.1:7110");
}

#[test]
fn client_config() {
    let d = AppConfig::default();
    assert_eq!(d.get_address(), "0.0.0.0:8080");
    let c = AppConfig { server: ServerConfig { host: "10.0.0.2".into(), port: 25575 } };
    assert_eq!(c.get_address(), "10.0.0.2:25575");
}

#[test]
fn reading_answers() {
    let r = TcpResponse::ok_with(ResponsePayload::Start(StartData {
        version: "1.21.4".into(),
        address: "a:1".into(),
    }));
    assert!(matches!(start_outcome(r), Outcome::Shown(d) if d.version == "1.21.4"));
    let r = TcpResponse::ok_with(ResponsePayload::Simple("x".into()));
    assert!(matches!(start_outcome(r), Outcome::InvalidPayload));
    let r = TcpResponse::error("no");
    assert!(matches!(start_outcome(r), Outcome::Failed(Some(m)) if m == "no"));

    let r = TcpResponse::ok_with(ResponsePayload::Simple("Server Stopped".into()));
    assert!(matches!(stop_outcome(r), Outcome::Shown(m) if m == "Server Stopped"));
    let r = TcpResponse::ok_with(ResponsePayload::Status(ServerState::Crashed));
    assert!(matches!(status_outcome(r), Outcome::Shown(ServerState::Crashed)));
    let r = TcpResponse::ok();
    assert!(matches!(status_outcome(r), Outcome::InvalidPayload));
    let r = TcpResponse::ok_with(ResponsePayload::OpResult(Op { player: "S".into(), op: false }));
    assert!(matches!(op_outcome(r), Outcome::Shown(o) if o.player == "S" && !o.op));
    assert_eq!(action_label(true), "Op");
    assert_eq!(action_label(false), "Deop");
}
