//! The entry point's decisions, as a state machine driven by the outcome of each action.
//!
//! The caller performs the pending action (printing the version, opening the log
//! file, installing the subscriber, running the server) and reports back with an
//! event; the session answers with the next action, ending in an exit status.

use vstd::prelude::*;
use crate::config::{CliArgs, DEFAULT_LOG_FILE, InvocationConfig, opt_view};
use crate::level::{LogLevel, level_named, level_of, recognize_log_level};

verus! {

/// Where log records are written.
#[derive(Clone, Copy, Debug, PartialEq, Eq, Structural)]
pub enum Sink {
    Stderr,
    /// The configured log destination, opened for append.
    File,
}

/// What the caller is asked to do next.
#[derive(Clone, Copy, Debug, PartialEq, Eq, Structural)]
pub enum Action {
    /// Print the version string.
    PrintVersion,
    /// Warn that the configured severity text names no level.
    WarnInvalidLevel,
    /// Open the configured destination for append, creating it if absent.
    OpenLogFile,
    /// Install the process-wide subscriber, writing to the sink at the threshold.
    InstallLogging(Sink, LogLevel),
    /// Run the language server until it returns.
    RunServer,
    /// Terminate, or hand back to an embedding host, with this status.
    Exit(i32),
}

/// The outcome of the action that was asked for.
#[derive(Clone, Copy, Debug, PartialEq, Eq, Structural)]
pub enum Event {
    /// The action was carried out.
    Done,
    /// The log file was opened.
    Opened,
    /// The log file could not be opened.
    OpenFailed,
    ServerSucceeded,
    ServerFailed,
}

/// The threshold a configuration selects: its severity text's level, else info.
pub open spec fn threshold(c: InvocationConfig) -> LogLevel {
    match c.log_severity {
        Some(s) => level_of(s@),
        None => LogLevel::Info,
    }
}

/// The configuration carries severity text that names no level.
pub open spec fn level_rejected(c: InvocationConfig) -> bool {
    match c.log_severity {
        Some(s) => level_named(s@).is_none(),
        None => false,
    }
}

/// Once the severity is settled: open the file if one was asked for, else log to stderr.
pub open spec fn sink_action(c: InvocationConfig) -> Action {
    if c.log_destination.is_some() {
        Action::OpenLogFile
    } else {
        Action::InstallLogging(Sink::Stderr, threshold(c))
    }
}

pub open spec fn first_action(c: InvocationConfig) -> Action {
    if c.version_requested {
        Action::PrintVersion
    } else if level_rejected(c) {
        Action::WarnInvalidLevel
    } else {
        sink_action(c)
    }
}

/// The action after `pending` ended with `e`; an event that does not answer
/// `pending` leaves it pending.
pub open spec fn next_action(c: InvocationConfig, pending: Action, e: Event) -> Action {
    match (pending, e) {
        (Action::PrintVersion, Event::Done) => Action::Exit(0),
        (Action::WarnInvalidLevel, Event::Done) => sink_action(c),
        (Action::OpenLogFile, Event::Opened) => Action::InstallLogging(Sink::File, threshold(c)),
        (Action::OpenLogFile, Event::OpenFailed) => Action::InstallLogging(Sink::Stderr, threshold(c)),
        (Action::InstallLogging(_, _), Event::Done) => Action::RunServer,
        (Action::RunServer, Event::ServerSucceeded) => Action::Exit(0),
        (Action::RunServer, Event::ServerFailed) => Action::Exit(1),
        _ => pending,
    }
}

/// The action pending after the events `es`, starting from `pending`.
pub open spec fn run(c: InvocationConfig, pending: Action, es: Seq<Event>) -> Action
    decreases es.len(),
{
    if es.len() == 0 {
        pending
    } else {
        run(c, next_action(c, pending, es[0]), es.drop_first())
    }
}

/// One run of the entry point.
pub struct Session {
    pub config: InvocationConfig,
    /// The threshold resolved from the configuration.
    pub level: LogLevel,
    /// The action the caller is to perform next.
    pub pending: Action,
}

impl Session {
    pub open spec fn wf(&self) -> bool {
        self.level == threshold(self.config)
    }

    /// Starts a run of `config`; the first action is `pending`.
    pub fn start(config: InvocationConfig) -> (s: Session)
        ensures
            s.wf(),
            s.config == config,
            s.pending == first_action(config),
    {
        let (level, rejected) = match &config.log_severity {
            Some(text) => match recognize_log_level(text.as_str()) {
                Some(l) => (l, false),
                None => (LogLevel::Info, true),
            },
            None => (LogLevel::Info, false),
        };
        let pending = if config.version_requested {
            Action::PrintVersion
        } else if rejected {
            Action::WarnInvalidLevel
        } else if config.log_destination.is_some() {
            Action::OpenLogFile
        } else {
            Action::InstallLogging(Sink::Stderr, level)
        };
        Session { config, level, pending }
    }

    /// Takes the outcome of the pending action and returns the next one.
    pub fn step(&mut self, e: Event) -> (a: Action)
        requires
            old(self).wf(),
        ensures
            final(self).wf(),
            a == next_action(old(self).config, old(self).pending, e),
            final(self).pending == a,
            final(self).config == old(self).config,
            final(self).level == old(self).level,
    {
        let next = match (self.pending, e) {
            (Action::PrintVersion, Event::Done) => Action::Exit(0),
            (Action::WarnInvalidLevel, Event::Done) => {
                if self.config.log_destination.is_some() {
                    Action::OpenLogFile
                } else {
                    Action::InstallLogging(Sink::Stderr, self.level)
                }
            },
            (Action::OpenLogFile, Event::Opened) => Action::InstallLogging(Sink::File, self.level),
            (Action::OpenLogFile, Event::OpenFailed) => Action::InstallLogging(Sink::Stderr, self.level),
            (Action::InstallLogging(_, _), Event::Done) => Action::RunServer,
            (Action::RunServer, Event::ServerSucceeded) => Action::Exit(0),
            (Action::RunServer, Event::ServerFailed) => Action::Exit(1),
            _ => self.pending,
        };
        self.pending = next;
        next
    }
}

/// With no log flags, logs go to standard error at info, and nothing is opened.
pub proof fn lemma_no_log_flags(a: CliArgs, c: InvocationConfig)
    requires
        c.resolves(a),
        !a.version,
        a.log.is_none(),
        a.log_file.is_none(),
        a.log_level.is_none(),
    ensures
        c.log_destination.is_none(),
        c.log_severity.is_none(),
        threshold(c) == LogLevel::Info,
        first_action(c) == Action::InstallLogging(Sink::Stderr, LogLevel::Info),
{
}

/// A bare `--log` selects the default log file at info.
pub proof fn lemma_bare_log_switch(a: CliArgs, c: InvocationConfig)
    requires
        c.resolves(a),
        !a.version,
        a.log == Some(None::<String>),
        a.log_file.is_none(),
        a.log_level.is_none(),
    ensures
        opt_view(c.log_destination) == Some(DEFAULT_LOG_FILE@),
        c.log_severity.is_none(),
        threshold(c) == LogLevel::Info,
        first_action(c) == Action::OpenLogFile,
{
}

/// `--log-file` wins over the default file of the deprecated `--log`.
pub proof fn lemma_log_file_wins(a: CliArgs, c: InvocationConfig, p: String)
    requires
        c.resolves(a),
        !a.version,
        a.log.is_some(),
        a.log_file == Some(p),
    ensures
        opt_view(c.log_destination) == Some(p@),
{
}

/// The version switch, whatever comes with it, prints the version and exits with
/// success: no event leads to opening a log, installing logging or running the server.
pub proof fn lemma_version_short_circuits(a: CliArgs, c: InvocationConfig, es: Seq<Event>)
    requires
        c.resolves(a),
        a.version,
    ensures
        first_action(c) == Action::PrintVersion,
        run(c, first_action(c), es) == Action::PrintVersion || run(c, first_action(c), es)
            == Action::Exit(0),
{
    lemma_version_run(c, Action::PrintVersion, es);
}

proof fn lemma_version_run(c: InvocationConfig, pending: Action, es: Seq<Event>)
    requires
        pending == Action::PrintVersion || pending == Action::Exit(0),
    ensures
        run(c, pending, es) == Action::PrintVersion || run(c, pending, es) == Action::Exit(0),
    decreases es.len(),
{
    if es.len() > 0 {
        lemma_version_run(c, next_action(c, pending, es[0]), es.drop_first());
    }
}

/// A log file that cannot be opened is not fatal: logging goes to standard error
/// at the resolved threshold, and the server is run next.
pub proof fn lemma_unopenable_log_still_serves(c: InvocationConfig)
    requires
        !c.version_requested,
        c.log_destination.is_some(),
    ensures
        first_action(c) == Action::OpenLogFile || (first_action(c) == Action::WarnInvalidLevel
            && next_action(c, Action::WarnInvalidLevel, Event::Done) == Action::OpenLogFile),
        next_action(c, Action::OpenLogFile, Event::OpenFailed) == Action::InstallLogging(
            Sink::Stderr,
            threshold(c),
        ),
        next_action(c, Action::InstallLogging(Sink::Stderr, threshold(c)), Event::Done)
            == Action::RunServer,
{
}

/// Severity text naming debug and an openable log file: the file gets logging at
/// debug, which lets info records through, the server runs, and its success exits 0.
pub proof fn lemma_debug_to_file_succeeds(c: InvocationConfig)
    requires
        !c.version_requested,
        c.log_destination.is_some(),
        c.log_severity.is_some(),
        level_named(c.log_severity.unwrap()@) == Some(LogLevel::Debug),
    ensures
        first_action(c) == Action::OpenLogFile,
        run(c, Action::OpenLogFile, seq![Event::Opened]) == Action::InstallLogging(
            Sink::File,
            LogLevel::Debug,
        ),
        run(c, Action::OpenLogFile, seq![Event::Opened, Event::Done]) == Action::RunServer,
        run(c, Action::OpenLogFile, seq![Event::Opened, Event::Done, Event::ServerSucceeded])
            == Action::Exit(0),
        LogLevel::Debug.spec_admits(LogLevel::Info),
{
    reveal_with_fuel(run, 4);
    assert(seq![Event::Opened].drop_first() =~= Seq::<Event>::empty());
    assert(seq![Event::Opened, Event::Done].drop_first() =~= seq![Event::Done]);
    assert(seq![Event::Done].drop_first() =~= Seq::<Event>::empty());
    assert(seq![Event::Opened, Event::Done, Event::ServerSucceeded].drop_first() =~= seq![
        Event::Done,
        Event::ServerSucceeded,
    ]);
    assert(seq![Event::Done, Event::ServerSucceeded].drop_first() =~= seq![Event::ServerSucceeded]);
    assert(seq![Event::ServerSucceeded].drop_first() =~= Seq::<Event>::empty());
}

} // verus!
