//! The timing helper: runs an arbitrary operation and, only when the
//! threshold accepts the chosen severity, measures its wall-clock duration
//! and produces the record to emit. When the threshold rejects it, the
//! operation runs with no clock read at all.

use vstd::prelude::*;
use vstd::string::StringExecFns;

use crate::severity::LevelFilter;
use crate::severity::Severity;
use crate::severity::spec_enabled;
use crate::text::opt_chars;

verus! {

#[verifier::external_type_specification]
#[verifier::external_body]
pub struct ExInstant(std::time::Instant);

/// Relies on `std::time::Instant::now`: an opaque reading of a monotonic
/// clock.
#[verifier::external_body]
fn instant_now() -> (r: std::time::Instant) {
    std::time::Instant::now()
}

/// Relies on `std::time::Instant::elapsed`: the time since that reading.
#[verifier::external_body]
fn instant_elapsed(start: &std::time::Instant) -> (r: core::time::Duration) {
    start.elapsed()
}

/// Relies on the `Debug` rendering of `core::time::Duration`: a
/// human-readable text of the duration.
#[verifier::external_body]
fn duration_text(d: core::time::Duration) -> (r: String) {
    format!("{:?}", d)
}

/// The character sequence of a timing record: `<name> took <duration>`,
/// or `<category> on "<name>" took <duration>` when a category is given.
pub open spec fn timing_chars(
    category: Option<Seq<char>>,
    name: Seq<char>,
    duration: Seq<char>,
) -> Seq<char> {
    match category {
        Option::None => name + " took "@ + duration,
        Option::Some(c) => c + " on \""@ + name + "\" took "@ + duration,
    }
}

/// Lays out a timing record from its parts.
pub fn timing_message(category: Option<&str>, name: &str, duration: &str) -> (r: String)
    ensures
        r@ == timing_chars(opt_chars(category), name@, duration@),
{
    match category {
        Option::None => {
            let mut out: String = name.to_owned();
            out.append(" took ");
            out.append(duration);
            proof {
                assert(out@ =~= timing_chars(Option::None, name@, duration@));
            }
            out
        },
        Option::Some(c) => {
            let mut out: String = c.to_owned();
            out.append(" on \"");
            out.append(name);
            out.append("\" took ");
            out.append(duration);
            proof {
                assert(out@ =~= timing_chars(Option::Some(c@), name@, duration@));
            }
            out
        },
    }
}

/// Runs `f` and returns its result unchanged, together with the timing
/// record to emit. The record is produced iff the threshold accepts
/// `level`; when it does not, `f` runs directly and no clock is read.
/// The optional category and the name only shape the record's text; a
/// caller that elides the severity passes `Severity::Debug`.
pub fn time<T, F: FnOnce() -> T>(
    level: Severity,
    category: Option<&str>,
    name: &str,
    filter: LevelFilter,
    f: F,
) -> (res: (T, Option<String>))
    requires
        call_requires(f, ()),
    ensures
        call_ensures(f, (), res.0),
        (res.1 is Some) == spec_enabled(level, filter),
        res.1 matches Some(m) ==> exists|d: Seq<char>|
            m@ == #[trigger] timing_chars(opt_chars(category), name@, d),
{
    if level.enabled(filter) {
        let start = instant_now();
        let value = f();
        let elapsed = instant_elapsed(&start);
        let text = duration_text(elapsed);
        let message = timing_message(category, name, text.as_str());
        proof {
            assert(message@ == timing_chars(opt_chars(category), name@, text@));
        }
        (value, Some(message))
    } else {
        (f(), None)
    }
}

} // verus!
