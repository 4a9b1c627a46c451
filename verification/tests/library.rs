use cli_log::LevelFilter;
use cli_log::LogConfig;
use cli_log::Severity;

const ALL: [Severity; 5] = [
    Severity::Error,
    Severity::Warn,
    Severity::Info,
    Severity::Debug,
    Severity::Trace,
];

fn rank(s: Severity) -> u8 {
    match s {
        Severity::Error => 1,
        Severity::Warn => 2,
        Severity::Info => 3,
        Severity::Debug => 4,
        Severity::Trace => 5,
    }
}

#[test]
fn enabled_iff_at_least_as_severe() {
    for s in ALL {
        assert!(!s.enabled(LevelFilter::Off));
        for t in ALL {
            assert_eq!(s.enabled(LevelFilter::Max(t)), rank(s) <= rank(t));
        }
    }
}

#[test]
fn severity_names() {
    assert_eq!(Severity::Error.name(), "ERROR");
    assert_eq!(Severity::Warn.name(), "WARN");
    assert_eq!(Severity::Info.name(), "INFO");
    assert_eq!(Severity::Debug.name(), "DEBUG");
    assert_eq!(Severity::Trace.name(), "TRACE");
}

#[test]
fn parse_accepts_the_six_names_case_insensitively() {
    assert_eq!(cli_log::parse_filter("off"), Some(LevelFilter::Off));
    assert_eq!(cli_log::parse_filter("OFF"), Some(LevelFilter::Off));
    assert_eq!(cli_log::parse_filter("Off"), Some(LevelFilter::Off));
    assert_eq!(
        cli_log::parse_filter("error"),
        Some(LevelFilter::Max(Severity::Error))
    );
    assert_eq!(
        cli_log::parse_filter("ERROR"),
        Some(LevelFilter::Max(Severity::Error))
    );
    assert_eq!(
        cli_log::parse_filter("WaRn"),
        Some(LevelFilter::Max(Severity::Warn))
    );
    assert_eq!(
        cli_log::parse_filter("info"),
        Some(LevelFilter::Max(Severity::Info))
    );
    assert_eq!(
        cli_log::parse_filter("DeBuG"),
        Some(LevelFilter::Max(Severity::Debug))
    );
    assert_eq!(
        cli_log::parse_filter("TRACE"),
        Some(LevelFilter::Max(Severity::Trace))
    );
}

#[test]
fn parse_rejects_everything_else() {
    assert_eq!(cli_log::parse_filter(""), None);
    assert_eq!(cli_log::parse_filter("garbage"), None);
    assert_eq!(cli_log::parse_filter(" debug"), None);
    assert_eq!(cli_log::parse_filter("debug "), None);
    assert_eq!(cli_log::parse_filter("offf"), None);
    assert_eq!(cli_log::parse_filter("warning"), None);
    assert_eq!(cli_log::parse_filter("2"), None);
}

#[test]
fn env_key_upper_cases_and_replaces_dashes() {
    assert_eq!(cli_log::env_key("my-app"), "MY_APP_LOG");
    assert_eq!(cli_log::env_key("small_app"), "SMALL_APP_LOG");
    assert_eq!(cli_log::env_key("broot"), "BROOT_LOG");
    assert_eq!(cli_log::env_key("App-2"), "APP_2_LOG");
    assert_eq!(cli_log::env_key(""), "_LOG");
}

#[test]
fn log_file_name_appends_extension() {
    assert_eq!(cli_log::log_file_name("my-app"), "my-app.log");
    assert_eq!(cli_log::log_file_name("small_app"), "small_app.log");
}

#[test]
fn configure_absent_value_stays_disabled() {
    assert!(matches!(cli_log::configure("my-app", None), LogConfig::Disabled));
}

#[test]
fn configure_off_and_garbage_stay_disabled() {
    for v in ["off", "OFF", "Off", "garbage", "", "verbose"] {
        assert!(matches!(
            cli_log::configure("my-app", Some(v)),
            LogConfig::Disabled
        ));
    }
}

#[test]
fn configure_valid_severity_enables_logging() {
    match cli_log::configure("my-app", Some("debug")) {
        LogConfig::Enabled { level, file_name } => {
            assert_eq!(level, Severity::Debug);
            assert_eq!(file_name, "my-app.log");
        }
        LogConfig::Disabled => panic!("expected logging to be enabled"),
    }
    match cli_log::configure("my-app", Some("ERROR")) {
        LogConfig::Enabled { level, file_name } => {
            assert_eq!(level, Severity::Error);
            assert_eq!(file_name, "my-app.log");
        }
        LogConfig::Disabled => panic!("expected logging to be enabled"),
    }
}

#[test]
fn starting_message_is_the_fingerprint_line() {
    assert_eq!(
        cli_log::starting_message("small-app", "0.1.0", Severity::Debug),
        "Starting small-app v0.1.0 with log level DEBUG"
    );
}

#[test]
fn format_line_lays_out_the_record() {
    assert_eq!(
        cli_log::format_line("13:39:53.511", Severity::Info, "small_app", "bye"),
        "13:39:53.511 [INFO] small_app: bye"
    );
}

#[test]
fn render_record_rejected_below_threshold() {
    assert!(cli_log::render_record(
        Severity::Debug,
        LevelFilter::Max(Severity::Info),
        "app",
        "hidden"
    )
    .is_none());
    assert!(cli_log::render_record(Severity::Error, LevelFilter::Off, "app", "hidden").is_none());
}

#[test]
fn render_record_stamps_and_lays_out_the_line() {
    let line = cli_log::render_record(
        Severity::Warn,
        LevelFilter::Max(Severity::Info),
        "small_app",
        "this application does nothing",
    )
    .expect("warn passes an info threshold");
    let tail = " [WARN] small_app: this application does nothing";
    assert_eq!(line.len(), 12 + tail.len());
    assert_eq!(&line[12..], tail);
    let stamp = line.as_bytes();
    assert_eq!(stamp[2], b':');
    assert_eq!(stamp[5], b':');
    assert_eq!(stamp[8], b'.');
    for i in [0, 1, 3, 4, 6, 7, 9, 10, 11] {
        assert!(stamp[i].is_ascii_digit());
    }
}

#[test]
fn time_returns_the_value_when_enabled() {
    let (value, message) = cli_log::time(
        Severity::Debug,
        None,
        "summing",
        LevelFilter::Max(Severity::Debug),
        || 2 + 2,
    );
    assert_eq!(value, 4);
    let message = message.expect("debug passes a debug threshold");
    assert!(message.starts_with("summing took "));
    assert!(message.contains("took"));
}

#[test]
fn time_returns_the_value_when_disabled() {
    let mut calls = 0;
    let (value, message) = cli_log::time(
        Severity::Debug,
        None,
        "summing",
        LevelFilter::Max(Severity::Info),
        || {
            calls += 1;
            2 + 2
        },
    );
    assert_eq!(value, 4);
    assert_eq!(calls, 1);
    assert!(message.is_none());
}

#[test]
fn time_with_category_quotes_the_name() {
    let (value, message) = cli_log::time(
        Severity::Info,
        Some("operations"),
        "mult 4",
        LevelFilter::Max(Severity::Trace),
        || 3 * 4,
    );
    assert_eq!(value, 12);
    let message = message.expect("info passes a trace threshold");
    assert!(message.starts_with("operations on \"mult 4\" took "));
}

#[test]
fn timing_message_exact_layout() {
    assert_eq!(cli_log::timing_message(None, "work", "3ms"), "work took 3ms");
    assert_eq!(
        cli_log::timing_message(Some("ops"), "mult 4", "12ns"),
        "ops on \"mult 4\" took 12ns"
    );
}

#[test]
fn mem_report_failed_query_yields_nothing() {
    assert!(cli_log::mem_report(
        Severity::Info,
        LevelFilter::Max(Severity::Trace),
        None
    )
    .is_none());
}

#[test]
fn mem_report_rejected_below_threshold() {
    let usage = cli_log::MemUsage {
        current: 960_000,
        peak: 3_400_000,
    };
    assert!(cli_log::mem_report(Severity::Debug, LevelFilter::Off, Some(usage)).is_none());
    assert!(cli_log::mem_report(
        Severity::Debug,
        LevelFilter::Max(Severity::Info),
        Some(usage)
    )
    .is_none());
}

#[test]
fn mem_report_renders_both_counters() {
    let usage = cli_log::MemUsage {
        current: 960_000,
        peak: 3_400_000,
    };
    let message = cli_log::mem_report(
        Severity::Info,
        LevelFilter::Max(Severity::Info),
        Some(usage),
    )
    .expect("info passes an info threshold");
    let expected = format!(
        "Physical mem usage: current={}, peak={}",
        file_size::fit_4(960_000),
        file_size::fit_4(3_400_000)
    );
    assert_eq!(message, expected);
    assert!(message.starts_with("Physical mem usage: current="));
}
