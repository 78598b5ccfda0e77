use dltlogger::level::{DltLogLevel, Level};
use dltlogger::logger::{DltLogger, DltLoggerBuilder, DltMessage, EncodingError};
use dltlogger::text::{basename, format_line, has_nul};

const SENTINEL: &str = "ERROR: NulError when converting log message from Rust to C.";

fn build_logger(name: &str, description: &str) -> DltLogger {
    let mut builder = DltLoggerBuilder::new();
    builder.set_context_name(name.to_string());
    builder.set_context_description(description.to_string());
    builder.build().unwrap()
}

#[test]
fn test_flush() {
    let logger = DltLoggerBuilder::new().build().unwrap();
    // does nothing
    logger.flush();
}

#[test]
fn test_enabled() {
    let logger = DltLoggerBuilder::new().build().unwrap();

    // always needs be enabled as this is handled by DLT
    assert!(logger.enabled(Level::Trace, ""));
}

#[test]
fn enabled_for_every_level_and_target() {
    let logger = build_logger("CTX", "a context");
    let levels = vec![Level::Error, Level::Warn, Level::Info, Level::Debug, Level::Trace];
    for level in levels {
        assert!(logger.enabled(level, ""));
        assert!(logger.enabled(level, "some::module"));
    }
}

#[test]
fn severity_mapping_covers_all_five_ranks() {
    let logger = build_logger("CTX", "a context");
    let cases = vec![
        (Level::Error, DltLogLevel::Error),
        (Level::Warn, DltLogLevel::Warn),
        (Level::Info, DltLogLevel::Info),
        (Level::Debug, DltLogLevel::Debug),
        (Level::Trace, DltLogLevel::Verbose),
    ];
    for (facade, daemon) in cases {
        let m = logger.log(facade, Some("a.rs"), Some(1), "x");
        assert_eq!(m.level, daemon);
    }
}

#[test]
fn formats_basename_line_and_message() {
    let logger = build_logger("CTX", "a context");
    let m = logger.log(Level::Info, Some("a/b/c.ext"), Some(42), "hi");
    assert_eq!(m.text, "[c.ext:42] hi");
}

#[test]
fn formats_path_without_separator() {
    let logger = build_logger("CTX", "a context");
    let m = logger.log(Level::Debug, Some("main.rs"), Some(7), "starting");
    assert_eq!(m.text, "[main.rs:7] starting");
}

#[test]
fn formats_path_ending_in_separator() {
    let logger = build_logger("CTX", "a context");
    let m = logger.log(Level::Warn, Some("dir/"), Some(5), "odd");
    assert_eq!(m.text, "[:5] odd");
}

#[test]
fn formats_missing_source_location_with_placeholders() {
    let logger = build_logger("CTX", "a context");
    let m = logger.log(Level::Error, None, None, "lost");
    assert_eq!(m.text, "[?:0] lost");
}

#[test]
fn formats_line_number_zero_and_max() {
    assert_eq!(format_line("a.rs", 0, "m"), "[a.rs:0] m");
    assert_eq!(format_line("a.rs", 4294967295, "m"), "[a.rs:4294967295] m");
}

#[test]
fn message_with_terminator_becomes_sentinel() {
    let logger = build_logger("CTX", "a context");
    let m = logger.log(Level::Info, Some("a.rs"), Some(3), "bad\0message");
    assert_eq!(m.text, SENTINEL);
    assert_eq!(m.level, DltLogLevel::Info);
}

#[test]
fn file_with_terminator_becomes_sentinel() {
    let logger = build_logger("CTX", "a context");
    let m = logger.log(Level::Info, Some("a\0.rs"), Some(3), "fine");
    assert_eq!(m.text, SENTINEL);
}

#[test]
fn build_rejects_terminator_in_name() {
    let mut builder = DltLoggerBuilder::new();
    builder.set_context_name("AB\0".to_string());
    builder.set_context_description("fine".to_string());
    assert_eq!(builder.build().err(), Some(EncodingError::NulInContextName));
}

#[test]
fn build_rejects_terminator_in_description() {
    let mut builder = DltLoggerBuilder::new();
    builder.set_context_name("ABCD".to_string());
    builder.set_context_description("bad\0".to_string());
    assert_eq!(builder.build().err(), Some(EncodingError::NulInContextDescription));
}

#[test]
fn setters_overwrite_until_build() {
    let mut builder = DltLoggerBuilder::new();
    builder.set_context_name("OLD".to_string());
    builder.set_context_name("NEW".to_string());
    builder.set_context_description("first".to_string());
    builder.set_context_description("second".to_string());
    let logger = builder.build().unwrap();
    let m = logger.log(Level::Info, Some("a.rs"), Some(1), "x");
    assert_eq!(m.context_name, "NEW");
}

#[test]
fn two_registrations_stay_distinguishable() {
    let first = build_logger("CTX1", "first context");
    let second = build_logger("CTX2", "second context");
    let mut sink: Vec<(String, DltLogLevel, String)> = Vec::new();
    let record = |sink: &mut Vec<(String, DltLogLevel, String)>, m: DltMessage| {
        sink.push((m.context_name, m.level, m.text));
    };
    record(&mut sink, first.log(Level::Info, Some("a.rs"), Some(1), "from one"));
    record(&mut sink, second.log(Level::Info, Some("a.rs"), Some(1), "from two"));
    assert_eq!(sink[0].0, "CTX1");
    assert_eq!(sink[1].0, "CTX2");
    assert_ne!(sink[0].0, sink[1].0);
}

#[test]
fn basename_strips_directory_prefix() {
    assert_eq!(basename("a/b/c.ext"), "c.ext");
    assert_eq!(basename("nofile"), "nofile");
    assert_eq!(basename("trailing/"), "");
    assert_eq!(basename(""), "");
}

#[test]
fn has_nul_detects_embedded_terminator() {
    assert!(has_nul("a\0b"));
    assert!(has_nul("\0"));
    assert!(!has_nul(""));
    assert!(!has_nul("plain text"));
}
