//! Resolution of the recognised command-line flags into an invocation configuration.

use vstd::prelude::*;

verus! {

/// Name of the log file that the deprecated `--log` switch selects.
pub const DEFAULT_LOG_FILE: &'static str = "beancount-language-server.log";

/// The recognised flags as they were found on the command line.
pub struct CliArgs {
    /// `--stdio` was given.
    pub stdio: bool,
    /// `-v` or `--version` was given.
    pub version: bool,
    /// The deprecated `--log [LEVEL]`: `None` when absent, `Some(None)` when given bare.
    pub log: Option<Option<String>>,
    /// The value of `--log-file <PATH>`.
    pub log_file: Option<String>,
    /// The value of `--log-level [LEVEL]`.
    pub log_level: Option<String>,
}

/// What the process was asked to do, with every precedence rule applied.
pub struct InvocationConfig {
    pub use_stdio: bool,
    pub version_requested: bool,
    /// Where logs go; `None` stands for standard error.
    pub log_destination: Option<String>,
    /// The severity text to apply; `None` stands for the default severity.
    pub log_severity: Option<String>,
}

pub open spec fn opt_view(o: Option<String>) -> Option<Seq<char>> {
    match o {
        Some(s) => Some(s@),
        None => None,
    }
}

/// Destination: `--log-file` first, then the default file of a bare or valued `--log`.
pub open spec fn destination_of(a: CliArgs) -> Option<Seq<char>> {
    match a.log_file {
        Some(p) => Some(p@),
        None => if a.log.is_some() {
            Some(DEFAULT_LOG_FILE@)
        } else {
            None
        },
    }
}

/// Severity: `--log-level` first, then the value of `--log`, else unset.
pub open spec fn severity_of(a: CliArgs) -> Option<Seq<char>> {
    match a.log_level {
        Some(l) => Some(l@),
        None => match a.log {
            Some(v) => opt_view(v),
            None => None,
        },
    }
}

impl InvocationConfig {
    /// The configuration that `a` resolves to.
    pub open spec fn resolves(self, a: CliArgs) -> bool {
        &&& self.version_requested == a.version
        &&& if a.version {
            &&& !self.use_stdio
            &&& self.log_destination.is_none()
            &&& self.log_severity.is_none()
        } else {
            &&& self.use_stdio == a.stdio
            &&& opt_view(self.log_destination) == destination_of(a)
            &&& opt_view(self.log_severity) == severity_of(a)
        }
    }
}

fn default_log_file() -> (r: String)
    ensures
        r@ == DEFAULT_LOG_FILE@,
{
    String::from_str(DEFAULT_LOG_FILE)
}

/// Applies the precedence rules to the flags; the version switch skips all the rest.
pub fn resolve(args: CliArgs) -> (r: InvocationConfig)
    ensures
        r.resolves(args),
{
    let ghost a = args;
    if args.version {
        return InvocationConfig {
            use_stdio: false,
            version_requested: true,
            log_destination: None,
            log_severity: None,
        };
    }
    let CliArgs { stdio, version, log, log_file, log_level } = args;
    let log_present = log.is_some();
    let log_value = match log {
        Some(v) => v,
        None => None,
    };
    let log_destination = match log_file {
        Some(p) => Some(p),
        None => if log_present {
            Some(default_log_file())
        } else {
            None
        },
    };
    let log_severity = match log_level {
        Some(l) => Some(l),
        None => log_value,
    };
    InvocationConfig { use_stdio: stdio, version_requested: version, log_destination, log_severity }
}

} // verus!
