use aioworldline::conf::{RawSettings, Settings};
use aioworldline::csrf::{csrf_from_inputs, eq_ignore_ascii_case_str, extract_csrf};
use aioworldline::error::{ConfigError, WorldlineError};
use aioworldline::report::{decode_report, strip_bom, ReportDecodeError};

#[test]
fn csrf_found_by_id() {
    let html = r#"<html><body><form><input type="hidden" id="__CSRF" value="tok123"></form></body></html>"#;
    assert_eq!(extract_csrf(html).unwrap(), "tok123");
}

#[test]
fn csrf_id_case_does_not_matter() {
    let html = r#"<input id="__csrf" value="a"><input id="__Csrf" value="b">"#;
    assert_eq!(extract_csrf(html).unwrap(), "a");
    let html = r#"<input id="other" value="x"><input id="__CsRf" value="b">"#;
    assert_eq!(extract_csrf(html).unwrap(), "b");
}

#[test]
fn csrf_without_value_is_empty() {
    assert_eq!(extract_csrf(r#"<input id="__CSRF">"#).unwrap(), "");
}

#[test]
fn csrf_missing() {
    assert!(matches!(extract_csrf("<html><body>nothing</body></html>"), Err(WorldlineError::CsrfNotFound)));
    assert!(matches!(extract_csrf(r#"<input name="__CSRF" value="x">"#), Err(WorldlineError::CsrfNotFound)));
    assert!(matches!(extract_csrf(r#"<div id="__CSRF">x</div>"#), Err(WorldlineError::CsrfNotFound)));
    assert!(matches!(extract_csrf(r#"<input id="__CSRF_" value="x">"#), Err(WorldlineError::CsrfNotFound)));
}

#[test]
fn csrf_from_rows() {
    let rows = vec![
        vec![Some("x".to_string()), Some("1".to_string())],
        vec![Some("__CSRF".to_string()), None],
        vec![Some("__csrf".to_string()), Some("3".to_string())],
    ];
    assert_eq!(csrf_from_inputs(&rows).unwrap(), "");
    let rows = vec![vec![None, Some("1".to_string())], vec![]];
    assert!(matches!(csrf_from_inputs(&rows), Err(WorldlineError::CsrfNotFound)));
}

#[test]
fn ascii_case_insensitive_equality() {
    assert!(eq_ignore_ascii_case_str("__CSRF", "__csrf"));
    assert!(eq_ignore_ascii_case_str("Straße", "STRAße"));
    assert!(!eq_ignore_ascii_case_str("Straße", "STRASSE"));
    assert!(!eq_ignore_ascii_case_str("ab", "abc"));
    assert!(eq_ignore_ascii_case_str("", ""));
}

fn raw(l: Option<&str>, p: Option<&str>, a: Option<&str>) -> RawSettings {
    RawSettings {
        login: l.map(String::from),
        password: p.map(String::from),
        account_id: a.map(String::from),
    }
}

fn missing(r: Result<Settings, ConfigError>) -> String {
    match r {
        Err(ConfigError::Missing(name)) => name,
        _ => panic!("expected a missing variable"),
    }
}

#[test]
fn settings_complete() {
    let s = Settings::from_raw(raw(Some("u"), Some("p"), Some("a"))).ok().unwrap();
    assert_eq!((s.login.as_str(), s.password.as_str(), s.account_id.as_str()), ("u", "p", "a"));
}

#[test]
fn settings_name_first_missing() {
    assert_eq!(missing(Settings::from_raw(raw(None, None, None))), "WORLDLINE_LOGIN");
    assert_eq!(missing(Settings::from_raw(raw(Some("u"), None, None))), "WORLDLINE_PASSWORD");
    assert_eq!(missing(Settings::from_raw(raw(Some("u"), Some("p"), None))), "WORLDLINE_ACCOUNT_ID");
}

#[test]
fn bom_is_stripped_once() {
    assert_eq!(strip_bom(b"\xEF\xBB\xBFabc"), b"abc");
    assert_eq!(strip_bom(b"abc"), b"abc");
    assert_eq!(strip_bom(b"\xEF\xBB"), b"\xEF\xBB");
    assert_eq!(strip_bom(b"\xEF\xBB\xBF\xEF\xBB\xBFx"), b"\xEF\xBB\xBFx");
}

#[test]
fn decode_report_reads_semicolon_records() {
    let rows = decode_report(b"\xEF\xBB\xBFdate;amount\n01.03.2024;12,50\n02.03.2024;7\n").unwrap();
    assert_eq!(rows.len(), 2);
    assert_eq!(rows[0].as_ref().unwrap(), &vec!["01.03.2024".to_string(), "12,50".to_string()]);
    assert_eq!(rows[1].as_ref().unwrap(), &vec!["02.03.2024".to_string(), "7".to_string()]);
}

#[test]
fn decode_report_reports_bad_records() {
    let rows = decode_report(b"a;b\n1;2\n3\n").unwrap();
    assert_eq!(rows.len(), 2);
    assert!(rows[0].is_ok());
    assert!(rows[1].is_err());
}

#[test]
fn decode_report_rejects_non_utf8() {
    assert_eq!(decode_report(b"a;b\n\xFF;1\n").err(), Some(ReportDecodeError::NotUtf8));
    assert!(decode_report(b"").unwrap().is_empty());
}
