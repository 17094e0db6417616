use super::quic::QUIC_CONF_PATH;
use std::path::PathBuf;
use vstd::prelude::*;

verus! {

/// Default server configuration file (relative to the application root).
pub const SERVER_CONF_PATH: &'static str = "conf/server.conf.toml";

/// Default log file.
pub const DEFAULT_LOG_OUTPUT: &'static str = "log/vauid.log";

/// Default listening address: the IPv4 loopback address in dotted form.
pub const DEFAULT_ADDR: &'static str = "127.0.0.1";

/// Default listening port.
pub const DEFAULT_PORT: u16 = 8080;

/// `std::path::PathBuf`, opaque to Verus.
#[verifier::external_type_specification]
#[verifier::external_body]
pub struct ExPathBuf(PathBuf);

/// What `PathBuf::from` builds from a string.
pub uninterp spec fn path_buf_from(s: Seq<char>) -> PathBuf;

/// `PathBuf::from(&str)`: the path is a function of the text alone.
#[verifier::external_body]
fn path_buf_from_str(s: &str) -> (p: PathBuf)
    ensures
        p == path_buf_from(s@),
{
    PathBuf::from(s)
}

/// Server settings.
#[derive(Debug)]
pub struct ServerConf {
    /// Listening address
    pub addr: String,
    /// Listening port
    pub port: u16,
    /// Log settings
    pub log: LogConf,
    /// Path of the QUIC configuration file
    pub quic: PathBuf,
}

impl Default for ServerConf {
    fn default() -> (r: Self)
        ensures
            r.addr@ == DEFAULT_ADDR@,
            r.port == DEFAULT_PORT,
            r.log.is_default(),
            r.quic == path_buf_from(QUIC_CONF_PATH@),
    {
        ServerConf {
            addr: DEFAULT_ADDR.to_owned(),
            port: DEFAULT_PORT,
            log: LogConf::default(),
            quic: path_buf_from_str(QUIC_CONF_PATH),
        }
    }
}

/// Log settings.
#[derive(Debug)]
pub struct LogConf {
    /// Log level
    pub level: LogLevel,
    /// Log file
    pub output: PathBuf,
    /// Whether the log file is written
    pub output_enabled: bool,
}

impl LogConf {
    /// The default values of every field.
    pub open spec fn is_default(&self) -> bool {
        &&& self.level == LogLevel::Info
        &&& self.output == path_buf_from(DEFAULT_LOG_OUTPUT@)
        &&& !self.output_enabled
    }
}

impl Default for LogConf {
    fn default() -> (r: Self)
        ensures
            r.is_default(),
    {
        LogConf {
            level: LogLevel::default(),
            output: path_buf_from_str(DEFAULT_LOG_OUTPUT),
            output_enabled: false,
        }
    }
}

/// Log level, from the most verbose to the least.
#[derive(Debug, Clone, Copy, PartialEq, Eq, Structural)]
pub enum LogLevel {
    Trace,
    Debug,
    Info,
    Warn,
    Error,
}

impl LogLevel {
    /// The lower-case name of the level, as the configuration file writes
    /// it and as log filters read it.
    pub open spec fn name(self) -> Seq<char> {
        match self {
            LogLevel::Trace => "trace"@,
            LogLevel::Debug => "debug"@,
            LogLevel::Info => "info"@,
            LogLevel::Warn => "warn"@,
            LogLevel::Error => "error"@,
        }
    }

    /// Name of the level.
    pub fn as_str(&self) -> (r: &'static str)
        ensures
            r@ == self.name(),
    {
        match self {
            LogLevel::Trace => "trace",
            LogLevel::Debug => "debug",
            LogLevel::Info => "info",
            LogLevel::Warn => "warn",
            LogLevel::Error => "error",
        }
    }
}

/// Each level is named by its lower-case identifier (`trace`, `debug`,
/// `info`, `warn`, `error`), the name log filters read.
pub proof fn law_log_level_names(l: LogLevel)
    ensures
        l == LogLevel::Trace ==> l.name() == seq!['t', 'r', 'a', 'c', 'e'],
        l == LogLevel::Debug ==> l.name() == seq!['d', 'e', 'b', 'u', 'g'],
        l == LogLevel::Info ==> l.name() == seq!['i', 'n', 'f', 'o'],
        l == LogLevel::Warn ==> l.name() == seq!['w', 'a', 'r', 'n'],
        l == LogLevel::Error ==> l.name() == seq!['e', 'r', 'r', 'o', 'r'],
{
    reveal_strlit("trace");
    reveal_strlit("debug");
    reveal_strlit("info");
    reveal_strlit("warn");
    reveal_strlit("error");
    assert(LogLevel::Trace.name() =~= seq!['t', 'r', 'a', 'c', 'e']);
    assert(LogLevel::Debug.name() =~= seq!['d', 'e', 'b', 'u', 'g']);
    assert(LogLevel::Info.name() =~= seq!['i', 'n', 'f', 'o']);
    assert(LogLevel::Warn.name() =~= seq!['w', 'a', 'r', 'n']);
    assert(LogLevel::Error.name() =~= seq!['e', 'r', 'r', 'o', 'r']);
}

/// The default log settings: level `info`, file `log/vauid.log`, file
/// output off.
pub proof fn law_log_defaults(c: LogConf)
    requires
        c.is_default(),
    ensures
        c.level == LogLevel::Info,
        c.output == path_buf_from(DEFAULT_LOG_OUTPUT@),
        !c.output_enabled,
{
}

impl Default for LogLevel {
    /// `Info` is the default level.
    fn default() -> (r: Self)
        ensures
            r == LogLevel::Info,
    {
        LogLevel::Info
    }
}

} // verus!
