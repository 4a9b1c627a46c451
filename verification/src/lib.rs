//! File logging for command-line applications, driven by an environment
//! variable: a severity model with a parser for the variable's value, the
//! derivation of the variable's name and of the log file's name from the
//! application's name, the exact text of every emitted line, a conditional
//! timing helper, and a memory-usage report.

mod config;
mod mem;
mod severity;
mod sink;
mod text;
mod timing;

pub use config::LogConfig;
pub use config::configure;
pub use config::env_key;
pub use config::env_key_chars;
pub use config::log_file_chars;
pub use config::log_file_name;
pub use config::spec_env_level;
pub use config::starting_chars;
pub use config::starting_message;
pub use mem::MemUsage;
pub use mem::fit4_chars;
pub use mem::mem_chars;
pub use mem::mem_message;
pub use mem::mem_report;
pub use severity::LevelFilter;
pub use severity::Severity;
pub use severity::filter_rank;
pub use severity::lemma_parse_case_insensitive;
pub use severity::parse_filter;
pub use severity::severity_name;
pub use severity::severity_rank;
pub use severity::spec_enabled;
pub use severity::spec_parse_filter;
pub use sink::format_line;
pub use sink::line_chars;
pub use sink::render_record;
pub use sink::timestamp_chars;
pub use text::env_char;
pub use text::env_chars;
pub use text::lower_char;
pub use text::lower_chars;
pub use text::opt_chars;
pub use timing::time;
pub use timing::timing_chars;
pub use timing::timing_message;
