use std::collections::HashMap;

use ntd_db::process_artifact::group_by_step_execution;
use ntd_db::schedule::{compute_next_run, next_run_text, resolve_timezone, utc_millis_text, NextOccurrence};
use ntd_db::usage::{json_or_empty_array, models_used_json, versions_json};

#[test]
fn invalid_cron_expression_has_no_next_run() {
    assert_eq!(compute_next_run("not a cron", None), None);
    assert_eq!(compute_next_run("", Some("Asia/Shanghai")), None);
}

#[test]
fn next_run_is_a_utc_millisecond_timestamp() {
    for tz in [None, Some("Asia/Shanghai"), Some(""), Some("Not/AZone")] {
        let next = compute_next_run("0 0 9 * * *", tz).expect("a daily schedule has a next run");
        assert_eq!(next.len(), 24, "{}", next);
        assert!(next.ends_with(".000Z"), "{}", next);
        assert_eq!(&next[10..11], "T");
    }
    // 09:00 in UTC+8 is 01:00 UTC; unknown zones and "" fall back to UTC
    assert_eq!(&compute_next_run("0 0 9 * * *", Some("Asia/Shanghai")).unwrap()[11..19], "01:00:00");
    assert_eq!(&compute_next_run("0 0 9 * * *", Some("")).unwrap()[11..19], "09:00:00");
    assert_eq!(&compute_next_run("0 0 9 * * *", Some("Not/AZone")).unwrap()[11..19], "09:00:00");
}

#[test]
fn timezone_resolution() {
    assert!(resolve_timezone(Some("Europe/Paris")).1);
    assert!(!resolve_timezone(Some("Mars/Base")).1);
    assert!(!resolve_timezone(Some("")).1);
    assert!(!resolve_timezone(None).1);
    assert_eq!(resolve_timezone(Some("Europe/Paris")).0, "Europe/Paris");
    assert_eq!(resolve_timezone(Some("Mars/Base")).0, "UTC");
    assert_eq!(resolve_timezone(Some("")).0, "UTC");
    assert_eq!(resolve_timezone(None).0, "UTC");
}

#[test]
fn instants_render_as_utc_millisecond_text() {
    assert_eq!(utc_millis_text(0), "1970-01-01T00:00:00.000Z");
    assert_eq!(utc_millis_text(-1), "1969-12-31T23:59:59.999Z");
    assert_eq!(utc_millis_text(-86_400_000), "1969-12-31T00:00:00.000Z");
    assert_eq!(utc_millis_text(951_782_400_000), "2000-02-29T00:00:00.000Z");
    assert_eq!(utc_millis_text(1_709_164_800_123), "2024-02-29T00:00:00.123Z");
    assert_eq!(utc_millis_text(4_102_444_799_999), "2099-12-31T23:59:59.999Z");
    assert_eq!(utc_millis_text(4_165_516_799_999), "2101-12-31T23:59:59.999Z");
    assert_eq!(utc_millis_text(253_402_300_799_999), "9999-12-31T23:59:59.999Z");
}

#[test]
fn usage_list_encodings() {
    assert_eq!(models_used_json(&["a".to_string(), "b\"c".to_string()]), r#"["a","b\"c"]"#);
    assert_eq!(models_used_json(&[]), "[]");
    assert_eq!(json_or_empty_array(None), "[]");
    assert_eq!(json_or_empty_array(Some("[1]".to_string())), "[1]");
    assert_eq!(versions_json(None), None);
    assert_eq!(versions_json(Some(&["1.0".to_string()])), Some(r#"["1.0"]"#.to_string()));
}

#[test]
fn gates_grouped_by_step_execution_in_row_order() {
    let rows = vec![(10, "g1"), (20, "g2"), (10, "g3"), (30, "g4"), (10, "g5")];
    let m: HashMap<i64, Vec<&str>> = group_by_step_execution(rows);
    assert_eq!(m.len(), 3);
    assert_eq!(m[&10], vec!["g1", "g3", "g5"]);
    assert_eq!(m[&20], vec!["g2"]);
    assert_eq!(m[&30], vec!["g4"]);
    assert!(!m.contains_key(&9999));
    assert!(group_by_step_execution::<i64>(Vec::new()).is_empty());
}

#[test]
fn usage_lists_are_compact_json_with_escapes() {
    let items = vec![
        "q\"b\\s".to_string(),
        "\u{8}\u{c}\n\r\t".to_string(),
        "\u{1}\u{1f}\u{7f}é".to_string(),
    ];
    assert_eq!(
        models_used_json(&items),
        "[\"q\\\"b\\\\s\",\"\\b\\f\\n\\r\\t\",\"\\u0001\\u001f\u{7f}é\"]"
    );
    assert_eq!(versions_json(Some(&["x".to_string(), "y".to_string()])), Some("[\"x\",\"y\"]".to_string()));
}

#[test]
fn next_run_text_per_outcome() {
    assert_eq!(next_run_text(NextOccurrence::At(0)), Some("1970-01-01T00:00:00.000Z".to_string()));
    assert_eq!(next_run_text(NextOccurrence::BadExpression), None);
    assert_eq!(next_run_text(NextOccurrence::UnknownZone), None);
    assert_eq!(next_run_text(NextOccurrence::NoneLeft), None);
}
