//! Configuration of the manager: the JVM, the game server, the client
//! connection and the daemon's timeouts. The built-in defaults are the lowest
//! layer of the configuration; files and the environment override them.
use vstd::prelude::*;
use crate::text::{copy_str, decimal, push_decimal};

verus! {

broadcast use vstd::string::group_string_axioms;

/// Main application configuration.
#[derive(Debug, Clone)]
pub struct McConfig {
    /// The Java Virtual Machine.
    pub java: JavaCfg,
    /// The game server (directories, jar, eula).
    pub server: ServerCfg,
    /// The command-line interface's connection to the daemon.
    pub client: ClientCfg,
    /// Timeouts and recovery policy of the daemon.
    pub daemon: DaemonCfg,
}

/// Java execution options.
#[derive(Debug, Clone)]
pub struct JavaCfg {
    /// Path to the java executable (e.g. "/usr/bin/java" or simply "java").
    pub path: String,
    /// Initial memory allocation (flag -Xms).
    pub xms: String,
    /// Maximum memory allocation (flag -Xmx).
    pub xmx: String,
    /// Additional arguments for the JVM.
    pub extra_args: Vec<String>,
}

/// Minecraft server options.
#[derive(Debug, Clone)]
pub struct ServerCfg {
    /// Minecraft version.
    pub version: String,
    /// Directory that holds the server's files.
    pub working_dir: String,
    /// Name of the server jar, relative to `working_dir`.
    pub jar: String,
    /// Whether the `nogui` flag is passed at start-up.
    pub nogui: bool,
    /// Whether `eula.txt` is written to accept Mojang's EULA.
    pub auto_eula: bool,
}

/// Where the daemon listens and the client connects.
#[derive(Debug, Clone)]
pub struct ClientCfg {
    /// Host address (e.g. "127.0.0.1" or "0.0.0.0").
    pub host: String,
    /// Port.
    pub port: u16,
}

/// What the daemon does with a server left running by a previous daemon.
#[derive(Debug, Clone, Copy, PartialEq, Eq, Structural)]
pub enum OrphanPolicy {
    /// Refuse to start until the orphan is cleared by hand.
    Refuse,
    /// Kill the orphan and go on.
    Kill,
}

/// Deadlines of the daemon's commands, in seconds, and its orphan policy.
#[derive(Debug, Clone)]
pub struct DaemonCfg {
    /// How long a start may take to reach `Running`.
    pub start_timeout_secs: u64,
    /// How long a graceful stop may take to reach `Stopped`.
    pub stop_timeout_secs: u64,
    /// How long a forced kill may take to reach `Stopped`.
    pub force_kill_timeout_secs: u64,
    /// What to do with an orphaned server at start-up.
    pub orphan_policy: OrphanPolicy,
}

impl Default for JavaCfg {
    fn default() -> (r: Self)
        ensures
            r.path@ == "java"@,
            r.xms@ == "1G"@,
            r.xmx@ == "2G"@,
            r.extra_args@.len() == 0,
    {
        JavaCfg {
            path: copy_str("java"),
            xms: copy_str("1G"),
            xmx: copy_str("2G"),
            extra_args: Vec::new(),
        }
    }
}

impl Default for ServerCfg {
    fn default() -> (r: Self)
        ensures
            r.version@ == "1.21.10"@,
            r.working_dir@ == "runtime/server"@,
            r.jar@ == "server.jar"@,
            r.nogui,
            !r.auto_eula,
    {
        ServerCfg {
            version: copy_str("1.21.10"),
            working_dir: copy_str("runtime/server"),
            jar: copy_str("server.jar"),
            nogui: true,
            auto_eula: false,
        }
    }
}

impl Default for ClientCfg {
    fn default() -> (r: Self)
        ensures
            r.host@ == "127.0.0.1"@,
            r.port == 7110,
    {
        ClientCfg { host: copy_str("127.0.0.1"), port: 7110 }
    }
}

/// The built-in daemon settings: a minute to start, thirty seconds to stop
/// gracefully, five more after a forced kill, and orphans refused.
pub open spec fn default_daemon(c: DaemonCfg) -> bool {
    &&& c.start_timeout_secs == 60
    &&& c.stop_timeout_secs == 30
    &&& c.force_kill_timeout_secs == 5
    &&& c.orphan_policy == OrphanPolicy::Refuse
}

impl Default for DaemonCfg {
    fn default() -> (r: Self)
        ensures
            default_daemon(r),
    {
        DaemonCfg {
            start_timeout_secs: 60,
            stop_timeout_secs: 30,
            force_kill_timeout_secs: 5,
            orphan_policy: OrphanPolicy::Refuse,
        }
    }
}

impl Default for McConfig {
    fn default() -> (r: Self)
        ensures
            r.java.path@ == "java"@,
            r.java.xms@ == "1G"@,
            r.java.xmx@ == "2G"@,
            r.java.extra_args@.len() == 0,
            r.server.version@ == "1.21.10"@,
            r.server.working_dir@ == "runtime/server"@,
            r.server.jar@ == "server.jar"@,
            r.server.nogui,
            !r.server.auto_eula,
            r.client.host@ == "127.0.0.1"@,
            r.client.port == 7110,
            default_daemon(r.daemon),
    {
        McConfig {
            java: JavaCfg::default(),
            server: ServerCfg::default(),
            client: ClientCfg::default(),
            daemon: DaemonCfg::default(),
        }
    }
}

/// `host:port`, the port written in decimal.
pub open spec fn socket_address(host: Seq<char>, port: u16) -> Seq<char> {
    host + seq![':'] + decimal(port as nat)
}

impl ClientCfg {
    /// The complete socket address (e.g. "127.0.0.1:7110").
    pub fn get_addr(&self) -> (s: String)
        ensures
            s@ == socket_address(self.host@, self.port),
    {
        socket_address_string(&self.host, self.port)
    }
}

/// `host:port` as a string.
pub fn socket_address_string(host: &str, port: u16) -> (s: String)
    ensures
        s@ == socket_address(host@, port),
{
    let mut s = copy_str(host);
    let colon = copy_str(":");
    proof {
        reveal_strlit(":");
    }
    crate::text::push_str(&mut s, &colon);
    push_decimal(&mut s, port as u64);
    s
}

} // verus!
