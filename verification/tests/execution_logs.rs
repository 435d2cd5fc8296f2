use ntd_db::execution_logs::log_rows;

#[test]
fn log_rows_read_each_element_with_defaults() {
    let rows = log_rows(
        r#"[{"timestamp":"t1","type":"stdout","content":"hi"},{"log_type":"stderr","content":"e"},{},{"type":7,"content":null}]"#,
        "NOW",
    )
    .expect("a JSON array");
    let got: Vec<(&str, &str, &str)> =
        rows.iter().map(|r| (r.timestamp.as_str(), r.log_type.as_str(), r.content.as_str())).collect();
    assert_eq!(
        got,
        vec![("t1", "stdout", "hi"), ("NOW", "stderr", "e"), ("NOW", "info", ""), ("NOW", "info", "")]
    );
}

#[test]
fn log_rows_reject_text_that_is_not_an_array() {
    assert!(log_rows("not json", "NOW").is_none());
    assert!(log_rows(r#"{"a":1}"#, "NOW").is_none());
    assert_eq!(log_rows("[]", "NOW").map(|r| r.len()), Some(0));
}
