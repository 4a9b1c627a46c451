//! The ordered severity model: five record severities, the installed
//! threshold, the gating predicate that every log site evaluates, and the
//! case-insensitive parser for the environment variable's value.

use vstd::prelude::*;

use crate::text::lower_chars;
use crate::text::lower_string;
use crate::text::str_eq;

verus! {

/// Severity of a single log record, from most urgent to most verbose.
#[derive(Clone, Copy, Debug, PartialEq, Eq, Structural)]
pub enum Severity {
    Error,
    Warn,
    Info,
    Debug,
    Trace,
}

/// The installed threshold: `Off` rejects every record, `Max(s)` accepts
/// records at severity `s` or more urgent.
#[derive(Clone, Copy, Debug, PartialEq, Eq, Structural)]
pub enum LevelFilter {
    Off,
    Max(Severity),
}

/// Numeric urgency of a severity: lower is more urgent.
pub open spec fn severity_rank(s: Severity) -> int {
    match s {
        Severity::Error => 1,
        Severity::Warn => 2,
        Severity::Info => 3,
        Severity::Debug => 4,
        Severity::Trace => 5,
    }
}

/// Numeric bound of a threshold, on the same scale as `severity_rank`.
pub open spec fn filter_rank(f: LevelFilter) -> int {
    match f {
        LevelFilter::Off => 0,
        LevelFilter::Max(s) => severity_rank(s),
    }
}

/// A record at severity `s` passes threshold `f` iff `s` is at least as
/// urgent as the threshold allows.
pub open spec fn spec_enabled(s: Severity, f: LevelFilter) -> bool {
    severity_rank(s) <= filter_rank(f)
}

/// The upper-case display name of a severity, as it stands between the
/// brackets of an emitted line.
pub open spec fn severity_name(s: Severity) -> Seq<char> {
    match s {
        Severity::Error => "ERROR"@,
        Severity::Warn => "WARN"@,
        Severity::Info => "INFO"@,
        Severity::Debug => "DEBUG"@,
        Severity::Trace => "TRACE"@,
    }
}

/// The threshold named by an environment value, read case-insensitively:
/// the five severity names and the sentinel `off`; anything else is not a
/// threshold at all.
pub open spec fn spec_parse_filter(s: Seq<char>) -> Option<LevelFilter> {
    let l = lower_chars(s);
    if l == "off"@ {
        Some(LevelFilter::Off)
    } else if l == "error"@ {
        Some(LevelFilter::Max(Severity::Error))
    } else if l == "warn"@ {
        Some(LevelFilter::Max(Severity::Warn))
    } else if l == "info"@ {
        Some(LevelFilter::Max(Severity::Info))
    } else if l == "debug"@ {
        Some(LevelFilter::Max(Severity::Debug))
    } else if l == "trace"@ {
        Some(LevelFilter::Max(Severity::Trace))
    } else {
        None
    }
}

/// Reading the environment value is case-insensitive: a value names the
/// same threshold as its ASCII lower-casing, whatever mix of cases it
/// arrived in.
pub proof fn lemma_parse_case_insensitive(s: Seq<char>)
    ensures
        spec_parse_filter(lower_chars(s)) == spec_parse_filter(s),
{
    assert(lower_chars(lower_chars(s)) =~= lower_chars(s)) by {
        assert forall|i: int| 0 <= i < s.len() implies lower_chars(lower_chars(s))[i]
            == lower_chars(s)[i] by {
            let c = s[i];
            assert(crate::text::lower_char(crate::text::lower_char(c))
                == crate::text::lower_char(c));
        }
    }
}

impl Severity {
    /// Exec form of `severity_rank`.
    pub fn rank(self) -> (r: u8)
        ensures
            r == severity_rank(self),
    {
        match self {
            Severity::Error => 1,
            Severity::Warn => 2,
            Severity::Info => 3,
            Severity::Debug => 4,
            Severity::Trace => 5,
        }
    }

    /// The gating check made at every log site: cheap, no I/O.
    pub fn enabled(self, f: LevelFilter) -> (r: bool)
        ensures
            r == spec_enabled(self, f),
    {
        let bound: u8 = match f {
            LevelFilter::Off => 0,
            LevelFilter::Max(s) => s.rank(),
        };
        self.rank() <= bound
    }

    /// The upper-case display name of this severity.
    pub fn name(self) -> (r: &'static str)
        ensures
            r@ == severity_name(self),
    {
        match self {
            Severity::Error => "ERROR",
            Severity::Warn => "WARN",
            Severity::Info => "INFO",
            Severity::Debug => "DEBUG",
            Severity::Trace => "TRACE",
        }
    }
}

/// Parses an environment value as a threshold, case-insensitively.
pub fn parse_filter(value: &str) -> (r: Option<LevelFilter>)
    ensures
        r == spec_parse_filter(value@),
{
    let l = lower_string(value);
    if str_eq(l.as_str(), "off") {
        Some(LevelFilter::Off)
    } else if str_eq(l.as_str(), "error") {
        Some(LevelFilter::Max(Severity::Error))
    } else if str_eq(l.as_str(), "warn") {
        Some(LevelFilter::Max(Severity::Warn))
    } else if str_eq(l.as_str(), "info") {
        Some(LevelFilter::Max(Severity::Info))
    } else if str_eq(l.as_str(), "debug") {
        Some(LevelFilter::Max(Severity::Debug))
    } else if str_eq(l.as_str(), "trace") {
        Some(LevelFilter::Max(Severity::Trace))
    } else {
        None
    }
}

} // verus!
