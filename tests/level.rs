use beancount_lsp_cli::level::{equals_ignoring_case, parse_log_level, recognize_log_level, LogLevel};

#[test]
fn test_parse_log_level_valid_lowercase() {
    assert_eq!(parse_log_level("trace"), LogLevel::Trace);
    assert_eq!(parse_log_level("debug"), LogLevel::Debug);
    assert_eq!(parse_log_level("info"), LogLevel::Info);
    assert_eq!(parse_log_level("warn"), LogLevel::Warn);
    assert_eq!(parse_log_level("error"), LogLevel::Error);
    assert_eq!(parse_log_level("off"), LogLevel::Off);
}

#[test]
fn test_parse_log_level_valid_uppercase() {
    assert_eq!(parse_log_level("TRACE"), LogLevel::Trace);
    assert_eq!(parse_log_level("DEBUG"), LogLevel::Debug);
    assert_eq!(parse_log_level("INFO"), LogLevel::Info);
    assert_eq!(parse_log_level("WARN"), LogLevel::Warn);
    assert_eq!(parse_log_level("ERROR"), LogLevel::Error);
    assert_eq!(parse_log_level("OFF"), LogLevel::Off);
}

#[test]
fn test_parse_log_level_valid_mixed_case() {
    assert_eq!(parse_log_level("Trace"), LogLevel::Trace);
    assert_eq!(parse_log_level("Debug"), LogLevel::Debug);
    assert_eq!(parse_log_level("Info"), LogLevel::Info);
    assert_eq!(parse_log_level("Warn"), LogLevel::Warn);
    assert_eq!(parse_log_level("Error"), LogLevel::Error);
    assert_eq!(parse_log_level("Off"), LogLevel::Off);
}

#[test]
fn test_parse_log_level_invalid_defaults_to_info() {
    assert_eq!(parse_log_level("invalid"), LogLevel::Info);
    assert_eq!(parse_log_level("unknown"), LogLevel::Info);
    assert_eq!(parse_log_level(""), LogLevel::Info);
    assert_eq!(parse_log_level("123"), LogLevel::Info);
}

#[test]
fn odd_casings_select_their_level() {
    assert_eq!(parse_log_level("tRaCe"), LogLevel::Trace);
    assert_eq!(parse_log_level("dEBUg"), LogLevel::Debug);
    assert_eq!(parse_log_level("iNFO"), LogLevel::Info);
    assert_eq!(parse_log_level("wArN"), LogLevel::Warn);
    assert_eq!(parse_log_level("erROR"), LogLevel::Error);
    assert_eq!(parse_log_level("oFf"), LogLevel::Off);
}

#[test]
fn near_names_are_not_levels() {
    assert_eq!(recognize_log_level("traces"), None);
    assert_eq!(recognize_log_level(" info"), None);
    assert_eq!(recognize_log_level("warning"), None);
    assert_eq!(recognize_log_level("0"), None);
    assert_eq!(recognize_log_level("\u{212A}"), None);
    assert_eq!(parse_log_level("of"), LogLevel::Info);
    assert_eq!(parse_log_level("ERRORS"), LogLevel::Info);
}

#[test]
fn recognize_reports_known_levels() {
    assert_eq!(recognize_log_level("Warn"), Some(LogLevel::Warn));
    assert_eq!(recognize_log_level("OFF"), Some(LogLevel::Off));
    assert_eq!(recognize_log_level(""), None);
}

#[test]
fn case_blind_comparison() {
    assert!(equals_ignoring_case("HeLLo", "hello"));
    assert!(equals_ignoring_case("", ""));
    assert!(!equals_ignoring_case("hello", "hell"));
    assert!(!equals_ignoring_case("h\u{e9}llo", "hello"));
    assert!(equals_ignoring_case("\u{e9}", "\u{e9}"));
    assert!(!equals_ignoring_case("[", "{"));
}

#[test]
fn levels_are_ordered() {
    let all = [LogLevel::Trace, LogLevel::Debug, LogLevel::Info, LogLevel::Warn, LogLevel::Error, LogLevel::Off];
    for (i, l) in all.iter().enumerate() {
        assert_eq!(l.rank_of() as usize, i);
    }
    assert!(LogLevel::Debug.admits(LogLevel::Info));
    assert!(LogLevel::Debug.admits(LogLevel::Debug));
    assert!(!LogLevel::Debug.admits(LogLevel::Trace));
    assert!(LogLevel::Trace.admits(LogLevel::Trace));
    assert!(!LogLevel::Off.admits(LogLevel::Error));
    assert!(!LogLevel::Trace.admits(LogLevel::Off));
    assert!(LogLevel::Error.admits(LogLevel::Error));
    assert!(!LogLevel::Error.admits(LogLevel::Warn));
}
