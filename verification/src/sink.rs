//! Log lines: the threshold check, the timestamp, and the exact layout
//! of each record's line.

use vstd::prelude::*;
use vstd::string::StringExecFns;

use crate::severity::LevelFilter;
use crate::severity::Severity;
use crate::severity::severity_name;
use crate::severity::spec_enabled;

verus! {

/// The character sequence of one log line (without its terminator):
/// `<timestamp> [<SEVERITY>] <source_tag>: <message>`.
pub open spec fn line_chars(
    timestamp: Seq<char>,
    level: Severity,
    tag: Seq<char>,
    message: Seq<char>,
) -> Seq<char> {
    timestamp + " ["@ + severity_name(level) + "] "@ + tag + ": "@ + message
}

/// The shape of a record's timestamp: `HH:MM:SS.mmm`, twelve characters,
/// local time of day with millisecond precision.
pub open spec fn timestamp_chars(ts: Seq<char>) -> bool {
    &&& ts.len() == 12
    &&& ts[2] == ':'
    &&& ts[5] == ':'
    &&& ts[8] == '.'
    &&& forall|i: int|
        0 <= i < 12 && i != 2 && i != 5 && i != 8 ==> 48 <= #[trigger] ts[i] as u32 <= 57
}

/// Relies on `chrono::Local::now`, formatted with `%T%.3f`: the current
/// local time of day as `HH:MM:SS.mmm`, two digits for each of hour,
/// minute and second and three for the millisecond, always twelve
/// characters.
#[verifier::external_body]
fn now_timestamp() -> (r: String)
    ensures
        timestamp_chars(r@),
{
    chrono::Local::now().format("%T%.3f").to_string()
}

/// Lays out one log line from its parts.
pub fn format_line(timestamp: &str, level: Severity, tag: &str, message: &str) -> (r: String)
    ensures
        r@ == line_chars(timestamp@, level, tag@, message@),
{
    let mut out: String = timestamp.to_owned();
    out.append(" [");
    out.append(level.name());
    out.append("] ");
    out.append(tag);
    out.append(": ");
    out.append(message);
    proof {
        assert(out@ =~= line_chars(timestamp@, level, tag@, message@));
    }
    out
}

/// The whole of a log call but the write: checks the record against the
/// threshold and, when it passes, stamps it and lays out its line. A
/// record at severity `s` yields a line iff `s` passes the threshold;
/// a rejected record yields nothing at all.
pub fn render_record(
    level: Severity,
    filter: LevelFilter,
    tag: &str,
    message: &str,
) -> (r: Option<String>)
    ensures
        (r is Some) == spec_enabled(level, filter),
        r matches Some(rendered) ==> exists|ts: Seq<char>|
            timestamp_chars(ts) && rendered@ == line_chars(ts, level, tag@, message@),
{
    if level.enabled(filter) {
        let ts = now_timestamp();
        let line = format_line(ts.as_str(), level, tag, message);
        proof {
            assert(line@ == line_chars(ts@, level, tag@, message@));
        }
        Some(line)
    } else {
        None
    }
}

} // verus!
