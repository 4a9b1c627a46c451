//! The initializer's decisions: the name of the environment variable read
//! for an application, the name of the log file, what an environment value
//! means for logging, and the one informational record that opens every
//! non-empty log file.

use vstd::prelude::*;
use vstd::string::StringExecFns;

use crate::severity::LevelFilter;
use crate::severity::Severity;
use crate::severity::severity_name;
use crate::severity::spec_parse_filter;
use crate::text::env_chars;
use crate::text::env_string;
use crate::text::opt_chars;

verus! {

/// Outcome of reading the environment: either logging stays off, or a
/// sink is to be installed with this threshold, writing to this file.
pub enum LogConfig {
    Disabled,
    Enabled { level: Severity, file_name: String },
}

/// The character sequence of the environment variable read for an
/// application: the name upper-cased with `-` turned to `_`, then `_LOG`.
pub open spec fn env_key_chars(app_name: Seq<char>) -> Seq<char> {
    env_chars(app_name) + "_LOG"@
}

/// The character sequence of the log file's name: the application's name
/// followed by `.log`.
pub open spec fn log_file_chars(app_name: Seq<char>) -> Seq<char> {
    app_name + ".log"@
}

/// The severity threshold asked for by an environment value, if any:
/// `None` when the variable is absent, names `off` (in any case), or
/// holds anything that is not a severity name.
pub open spec fn spec_env_level(env_value: Option<Seq<char>>) -> Option<Severity> {
    match env_value {
        Option::None => Option::None,
        Option::Some(v) => match spec_parse_filter(v) {
            Option::Some(LevelFilter::Max(s)) => Option::Some(s),
            _ => Option::None,
        },
    }
}

/// The name of the environment variable read for an application.
pub fn env_key(app_name: &str) -> (r: String)
    ensures
        r@ == env_key_chars(app_name@),
{
    let key = env_string(app_name);
    let r = key.concat("_LOG");
    r
}

/// The name of the log file created for an application.
pub fn log_file_name(app_name: &str) -> (r: String)
    ensures
        r@ == log_file_chars(app_name@),
{
    let base = app_name.to_owned();
    base.concat(".log")
}

/// Decides, from the application's name and the value found in its
/// environment variable, whether logging is enabled, at which threshold,
/// and into which file. Logging is enabled iff the value names a severity
/// other than `off`, read case-insensitively; an absent or malformed value
/// leaves logging disabled and creates no file.
pub fn configure(app_name: &str, env_value: Option<&str>) -> (r: LogConfig)
    ensures
        (r is Disabled) <==> (spec_env_level(opt_chars(env_value)) is None),
        r matches LogConfig::Enabled { level, file_name } ==> {
            &&& Option::Some(level) == spec_env_level(opt_chars(env_value))
            &&& file_name@ == log_file_chars(app_name@)
        },
{
    match env_value {
        Option::None => LogConfig::Disabled,
        Option::Some(v) => match crate::severity::parse_filter(v) {
            Option::Some(LevelFilter::Max(level)) => LogConfig::Enabled {
                level,
                file_name: log_file_name(app_name),
            },
            _ => LogConfig::Disabled,
        },
    }
}

/// The character sequence of the record that opens every non-empty log
/// file, a version and configuration fingerprint.
pub open spec fn starting_chars(
    app_name: Seq<char>,
    app_version: Seq<char>,
    level: Severity,
) -> Seq<char> {
    "Starting "@ + app_name + " v"@ + app_version + " with log level "@ + severity_name(level)
}

/// The informational record emitted right after the sink is installed.
pub fn starting_message(app_name: &str, app_version: &str, level: Severity) -> (r: String)
    ensures
        r@ == starting_chars(app_name@, app_version@, level),
{
    let mut out: String = "Starting ".to_owned();
    out.append(app_name);
    out.append(" v");
    out.append(app_version);
    out.append(" with log level ");
    out.append(level.name());
    proof {
        assert(out@ =~= starting_chars(app_name@, app_version@, level));
    }
    out
}

} // verus!
