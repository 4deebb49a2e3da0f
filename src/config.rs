//! Agent configuration values, their defaults, and the choices derived from them.

use vstd::prelude::*;
use vstd::string::*;
use crate::text::same_text;

verus! {

/// Where the public addresses are looked up.
#[derive(Debug, Clone, Copy, PartialEq, Eq, Structural)]
pub enum IpProvider {
    Cloudflare,
    Ipinfo,
}

impl IpProvider {
    pub open spec fn spec_text(self) -> Seq<char> {
        match self {
            IpProvider::Cloudflare => "cloudflare"@,
            IpProvider::Ipinfo => "ipinfo"@,
        }
    }

    /// The provider's name as given on the command line.
    pub fn to_text(&self) -> (r: String)
        ensures
            r@ == self.spec_text(),
    {
        match self {
            IpProvider::Cloudflare => String::from_str("cloudflare"),
            IpProvider::Ipinfo => String::from_str("ipinfo"),
        }
    }
}

/// Logging verbosity.
#[derive(Debug, Clone, Copy, PartialEq, Eq, Structural)]
pub enum LogLevel {
    Error,
    Warn,
    Info,
    Debug,
    Trace,
}

impl LogLevel {
    pub open spec fn spec_text(self) -> Seq<char> {
        match self {
            LogLevel::Error => "error"@,
            LogLevel::Warn => "warn"@,
            LogLevel::Info => "info"@,
            LogLevel::Debug => "debug"@,
            LogLevel::Trace => "trace"@,
        }
    }

    /// The level's name as given on the command line.
    pub fn to_text(&self) -> (r: String)
        ensures
            r@ == self.spec_text(),
    {
        match self {
            LogLevel::Error => String::from_str("error"),
            LogLevel::Warn => String::from_str("warn"),
            LogLevel::Info => String::from_str("info"),
            LogLevel::Debug => String::from_str("debug"),
            LogLevel::Trace => String::from_str("trace"),
        }
    }
}

/// The placeholder that stands for the platform's shell.
pub fn terminal_entry() -> (r: String)
    ensures
        r@ == "default"@,
{
    String::from_str("default")
}

/// The default provider of public addresses.
pub fn ip_provider() -> (r: IpProvider)
    ensures
        r == IpProvider::Ipinfo,
{
    IpProvider::Ipinfo
}

/// The default logging verbosity.
pub fn log_level() -> (r: LogLevel)
    ensures
        r == LogLevel::Info,
{
    LogLevel::Info
}

/// The shell that a terminal runs: `entry` as configured, or where it is the
/// placeholder, `cmd.exe` on Windows, else `/bin/bash` where it exists, else `sh`.
pub open spec fn resolved_entry(entry: Seq<char>, windows: bool, has_bash: bool) -> Seq<char> {
    if entry != "default"@ {
        entry
    } else if windows {
        "cmd.exe"@
    } else if has_bash {
        "/bin/bash"@
    } else {
        "sh"@
    }
}

/// The shell that a terminal runs, as `resolved_entry` states.
pub fn resolve_terminal_entry(entry: &str, windows: bool, has_bash: bool) -> (r: String)
    ensures
        r@ == resolved_entry(entry@, windows, has_bash),
{
    if !same_text(entry, "default") {
        String::from_str(entry)
    } else if windows {
        String::from_str("cmd.exe")
    } else if has_bash {
        String::from_str("/bin/bash")
    } else {
        String::from_str("sh")
    }
}

/// How the WebSocket dialer connects.
#[derive(Debug, Clone, Copy, PartialEq, Eq, Structural)]
pub enum DialMode {
    Plain,
    /// TLS with certificate verification.
    Tls,
    /// TLS that accepts every certificate chain and host name.
    TlsSkipVerify,
}

/// The dial mode for the transport flags.
pub fn dial_mode(tls: bool, skip_verify: bool) -> (r: DialMode)
    ensures
        !tls ==> r == DialMode::Plain,
        tls && !skip_verify ==> r == DialMode::Tls,
        tls && skip_verify ==> r == DialMode::TlsSkipVerify,
{
    if !tls {
        DialMode::Plain
    } else if skip_verify {
        DialMode::TlsSkipVerify
    } else {
        DialMode::Tls
    }
}

} // verus!
