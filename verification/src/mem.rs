//! The memory reporter's text: given the counters that an operating-system
//! query handed back, the record summarizing current and peak resident
//! memory. The query itself runs outside the verified library; a failed
//! query yields no record at all.

use vstd::prelude::*;
use vstd::string::StringExecFns;

use crate::severity::LevelFilter;
use crate::severity::Severity;
use crate::severity::spec_enabled;

verus! {

/// Resident-memory counters of the running process, in bytes.
#[derive(Clone, Copy, Debug, PartialEq, Eq, Structural)]
pub struct MemUsage {
    pub current: u64,
    pub peak: u64,
}

pub uninterp spec fn fit4_chars(size: u64) -> Seq<char>;

/// Relies on `file_size::fit_4`: a human-readable, magnitude-scaled
/// rendering of a byte count in at most four characters, a function of
/// the count alone.
#[verifier::external_body]
fn fit_4(size: u64) -> (r: String)
    ensures
        r@ == fit4_chars(size),
        r@.len() <= 4,
{
    file_size::fit_4(size)
}

/// The character sequence of a memory report:
/// `Physical mem usage: current=<c>, peak=<p>`, both counters rendered
/// by the four-character scaling.
pub open spec fn mem_chars(usage: MemUsage) -> Seq<char> {
    "Physical mem usage: current="@ + fit4_chars(usage.current) + ", peak="@ + fit4_chars(
        usage.peak,
    )
}

/// Lays out the record summarizing the given memory counters.
pub fn mem_message(usage: MemUsage) -> (r: String)
    ensures
        r@ == mem_chars(usage),
{
    let mut out: String = "Physical mem usage: current=".to_owned();
    let current = fit_4(usage.current);
    out.append(current.as_str());
    out.append(", peak=");
    let peak = fit_4(usage.peak);
    out.append(peak.as_str());
    proof {
        assert(out@ =~= mem_chars(usage));
    }
    out
}

/// The whole of the memory reporter but the query and the write: decides
/// whether a record is due and lays it out. A record is produced iff the
/// threshold accepts `level` and the query succeeded; in particular a
/// failed query yields no record and no failure.
pub fn mem_report(level: Severity, filter: LevelFilter, query: Option<MemUsage>) -> (r: Option<
    String,
>)
    ensures
        (r is Some) <==> (spec_enabled(level, filter) && query is Some),
        r matches Some(m) ==> m@ == mem_chars(query->0),
{
    if level.enabled(filter) {
        match query {
            Option::Some(usage) => Some(mem_message(usage)),
            Option::None => None,
        }
    } else {
        None
    }
}

} // verus!
