use discord_cli::error::AppError;
use discord_cli::params::{optional_string, optional_u64, required_string, trim, ParamValue, Params};

fn params(entries: Vec<(&str, ParamValue)>) -> Params {
    Params { entries: entries.into_iter().map(|(k, v)| (k.to_string(), v)).collect() }
}

fn text(s: &str) -> ParamValue {
    ParamValue::Text(s.to_string())
}

#[test]
fn trim_removes_unicode_white_space() {
    assert_eq!(trim("  hello \t\n"), "hello");
    assert_eq!(trim("\u{3000}general\u{a0}"), "general");
    assert_eq!(trim("   "), "");
    assert_eq!(trim(""), "");
    assert_eq!(trim("a b"), "a b");
    assert_eq!(trim("\u{2003}x\u{205f}"), "x");
}

#[test]
fn trim_is_idempotent() {
    for s in ["  a  ", "\tb", "c\n", "", "  "] {
        assert_eq!(trim(trim(s)), trim(s));
        assert_eq!(trim(s), s.trim());
    }
}

#[test]
fn optional_string_trims_and_skips_blank() {
    let p = params(vec![("server", text("  Story ")), ("channel", text("   ")), ("count", ParamValue::Unsigned(3))]);
    assert_eq!(optional_string(&p, "server"), Some("Story"));
    assert_eq!(optional_string(&p, "channel"), None);
    assert_eq!(optional_string(&p, "count"), None);
    assert_eq!(optional_string(&p, "missing"), None);
}

#[test]
fn later_member_wins() {
    let p = params(vec![("query", text("first")), ("query", text("second"))]);
    assert_eq!(optional_string(&p, "query"), Some("second"));
}

#[test]
fn required_string_reports_missing_key() {
    let p = params(vec![("text", text(" hi "))]);
    assert_eq!(required_string(&p, "text"), Ok("hi"));
    assert_eq!(required_string(&p, "query"), Err(AppError::InvalidParams("`query` is required".to_string())));
    let blank = params(vec![("query", text(" \n "))]);
    assert_eq!(required_string(&blank, "query"), Err(AppError::InvalidParams("`query` is required".to_string())));
    let other = params(vec![("query", ParamValue::Other)]);
    assert!(required_string(&other, "query").is_err());
}

#[test]
fn required_agrees_with_optional() {
    let p = params(vec![("a", text(" x ")), ("b", text(" ")), ("c", ParamValue::Unsigned(1))]);
    for key in ["a", "b", "c", "d"] {
        assert_eq!(required_string(&p, key).ok(), optional_string(&p, key));
    }
}

#[test]
fn optional_u64_uses_default() {
    let p = params(vec![("count", ParamValue::Unsigned(10)), ("other", text("5"))]);
    assert_eq!(optional_u64(&p, "count", 20), 10);
    assert_eq!(optional_u64(&p, "other", 20), 20);
    assert_eq!(optional_u64(&p, "missing", 20), 20);
    let empty = Params { entries: vec![] };
    assert_eq!(optional_u64(&empty, "count", 7), 7);
}

#[test]
fn error_messages() {
    assert_eq!(AppError::InvalidParams("x".to_string()).message(), "invalid params: x");
    assert_eq!(AppError::CommandNotFound("y".to_string()).message(), "command not found: y");
    assert_eq!(AppError::Browser("z".to_string()).message(), "browser error: z");
}
