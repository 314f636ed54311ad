//! The first-generation configuration file (`java`, `server` and `backup`
//! sections, all required).
use vstd::prelude::*;

verus! {

/// The whole configuration file.
#[derive(Debug, Clone)]
pub struct Config {
    pub java: JavaCfg,
    pub server: ServerCfg,
    pub backup: BackupCfg,
}

/// The JVM.
#[derive(Debug, Clone)]
pub struct JavaCfg {
    pub path: String,
    pub xms: String,
    pub xmx: String,
    pub extra_args: Vec<String>,
}

/// The game server.
#[derive(Debug, Clone)]
pub struct ServerCfg {
    pub working_dir: String,
    pub jar: String,
    pub nogui: bool,
    pub auto_eula: bool,
}

/// Where backups are written.
#[derive(Debug, Clone)]
pub struct BackupCfg {
    pub path: String,
}

} // verus!
