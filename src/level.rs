//! Severity levels and their case-insensitive names.

use vstd::prelude::*;

verus! {

/// A logging threshold, ordered from the most verbose to silence.
#[derive(Clone, Copy, Debug, PartialEq, Eq, Structural)]
pub enum LogLevel {
    Trace,
    Debug,
    Info,
    Warn,
    Error,
    Off,
}

impl LogLevel {
    /// Position of the level in the order trace < debug < info < warn < error < off.
    pub open spec fn rank(self) -> nat {
        match self {
            LogLevel::Trace => 0,
            LogLevel::Debug => 1,
            LogLevel::Info => 2,
            LogLevel::Warn => 3,
            LogLevel::Error => 4,
            LogLevel::Off => 5,
        }
    }

    /// The lower-case name by which the level is selected.
    pub open spec fn name(self) -> Seq<char> {
        match self {
            LogLevel::Trace => seq!['t', 'r', 'a', 'c', 'e'],
            LogLevel::Debug => seq!['d', 'e', 'b', 'u', 'g'],
            LogLevel::Info => seq!['i', 'n', 'f', 'o'],
            LogLevel::Warn => seq!['w', 'a', 'r', 'n'],
            LogLevel::Error => seq!['e', 'r', 'r', 'o', 'r'],
            LogLevel::Off => seq!['o', 'f', 'f'],
        }
    }

    /// A record at level `event` passes a filter set to `self`.
    pub open spec fn spec_admits(self, event: LogLevel) -> bool {
        event != LogLevel::Off && event.rank() >= self.rank()
    }

    pub fn rank_of(&self) -> (r: u8)
        ensures
            r as nat == self.rank(),
    {
        match self {
            LogLevel::Trace => 0,
            LogLevel::Debug => 1,
            LogLevel::Info => 2,
            LogLevel::Warn => 3,
            LogLevel::Error => 4,
            LogLevel::Off => 5,
        }
    }

    /// Whether a record emitted at `event` gets through a threshold of `self`.
    pub fn admits(&self, event: LogLevel) -> (r: bool)
        ensures
            r == self.spec_admits(event),
    {
        event != LogLevel::Off && event.rank_of() >= self.rank_of()
    }
}

/// The code point of `c` with ASCII upper-case letters taken to lower case.
pub open spec fn ascii_lower(c: char) -> u32 {
    if 65 <= c as u32 && c as u32 <= 90 {
        (c as u32 + 32) as u32
    } else {
        c as u32
    }
}

/// `a` and `b` spell the same word, ignoring ASCII case.
pub open spec fn same_ignoring_case(a: Seq<char>, b: Seq<char>) -> bool {
    a.len() == b.len() && forall|i: int| 0 <= i < a.len() ==> ascii_lower(#[trigger] a[i]) == ascii_lower(b[i])
}

/// The level that `s` names, in any mix of case, if it names one.
pub open spec fn level_named(s: Seq<char>) -> Option<LogLevel> {
    if same_ignoring_case(s, LogLevel::Trace.name()) {
        Some(LogLevel::Trace)
    } else if same_ignoring_case(s, LogLevel::Debug.name()) {
        Some(LogLevel::Debug)
    } else if same_ignoring_case(s, LogLevel::Info.name()) {
        Some(LogLevel::Info)
    } else if same_ignoring_case(s, LogLevel::Warn.name()) {
        Some(LogLevel::Warn)
    } else if same_ignoring_case(s, LogLevel::Error.name()) {
        Some(LogLevel::Error)
    } else if same_ignoring_case(s, LogLevel::Off.name()) {
        Some(LogLevel::Off)
    } else {
        None
    }
}

/// The threshold that the text `s` selects: the level it names, else info.
pub open spec fn level_of(s: Seq<char>) -> LogLevel {
    match level_named(s) {
        Some(l) => l,
        None => LogLevel::Info,
    }
}

fn lower_code(c: char) -> (r: u32)
    ensures
        r == ascii_lower(c),
{
    let u = c as u32;
    if 65 <= u && u <= 90 {
        u + 32
    } else {
        u
    }
}

/// Compares `s` with `word` character by character, ignoring ASCII case.
pub fn equals_ignoring_case(s: &str, word: &str) -> (r: bool)
    ensures
        r == same_ignoring_case(s@, word@),
{
    let n = s.unicode_len();
    if n != word.unicode_len() {
        return false;
    }
    let mut i: usize = 0;
    while i < n
        invariant
            n == s@.len(),
            n == word@.len(),
            i <= n,
            forall|j: int| 0 <= j < i ==> ascii_lower(#[trigger] s@[j]) == ascii_lower(word@[j]),
        decreases n - i,
    {
        if lower_code(s.get_char(i)) != lower_code(word.get_char(i)) {
            return false;
        }
        i = i + 1;
    }
    true
}

/// The level that `level_str` names, case aside, or `None` when it names none.
pub fn recognize_log_level(level_str: &str) -> (r: Option<LogLevel>)
    ensures
        r == level_named(level_str@),
{
    proof {
        reveal_strlit("trace");
        reveal_strlit("debug");
        reveal_strlit("info");
        reveal_strlit("warn");
        reveal_strlit("error");
        reveal_strlit("off");
        assert("trace"@ =~= LogLevel::Trace.name());
        assert("debug"@ =~= LogLevel::Debug.name());
        assert("info"@ =~= LogLevel::Info.name());
        assert("warn"@ =~= LogLevel::Warn.name());
        assert("error"@ =~= LogLevel::Error.name());
        assert("off"@ =~= LogLevel::Off.name());
    }
    if equals_ignoring_case(level_str, "trace") {
        Some(LogLevel::Trace)
    } else if equals_ignoring_case(level_str, "debug") {
        Some(LogLevel::Debug)
    } else if equals_ignoring_case(level_str, "info") {
        Some(LogLevel::Info)
    } else if equals_ignoring_case(level_str, "warn") {
        Some(LogLevel::Warn)
    } else if equals_ignoring_case(level_str, "error") {
        Some(LogLevel::Error)
    } else if equals_ignoring_case(level_str, "off") {
        Some(LogLevel::Off)
    } else {
        None
    }
}

/// The threshold that `level_str` selects; text that names no level selects info.
pub fn parse_log_level(level_str: &str) -> (r: LogLevel)
    ensures
        r == level_of(level_str@),
{
    match recognize_log_level(level_str) {
        Some(l) => l,
        None => LogLevel::Info,
    }
}

/// Every spelling of a level's name, in any mix of case, selects exactly that level.
pub proof fn lemma_any_case_selects_level(s: Seq<char>, l: LogLevel)
    requires
        same_ignoring_case(s, l.name()),
    ensures
        level_named(s) == Some(l),
        level_of(s) == l,
{
    lemma_names_distinct(s, l);
}

/// Text that spells no level's name, in any case, selects info.
pub proof fn lemma_unknown_selects_info(s: Seq<char>)
    requires
        forall|l: LogLevel| !same_ignoring_case(s, #[trigger] l.name()),
    ensures
        level_named(s) == None::<LogLevel>,
        level_of(s) == LogLevel::Info,
{
    assert(!same_ignoring_case(s, LogLevel::Trace.name()));
    assert(!same_ignoring_case(s, LogLevel::Debug.name()));
    assert(!same_ignoring_case(s, LogLevel::Info.name()));
    assert(!same_ignoring_case(s, LogLevel::Warn.name()));
    assert(!same_ignoring_case(s, LogLevel::Error.name()));
    assert(!same_ignoring_case(s, LogLevel::Off.name()));
}

/// No text spells the names of two different levels.
proof fn lemma_names_distinct(s: Seq<char>, l: LogLevel)
    requires
        same_ignoring_case(s, l.name()),
    ensures
        forall|m: LogLevel| same_ignoring_case(s, #[trigger] m.name()) ==> m == l,
{
    assert forall|m: LogLevel| same_ignoring_case(s, #[trigger] m.name()) implies m == l by {
        if m != l {
            let a = l.name();
            let b = m.name();
            assert(ascii_lower(s[0]) == ascii_lower(a[0]));
            assert(ascii_lower(s[0]) == ascii_lower(b[0]));
            assert(ascii_lower(s[1]) == ascii_lower(a[1]));
            assert(ascii_lower(s[1]) == ascii_lower(b[1]));
        }
    }
}

} // verus!
