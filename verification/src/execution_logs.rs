//! The legacy `execution_records.logs` JSON array, read into the rows of the
//! `execution_logs` table: one row per array element, from its `timestamp`,
//! `type` (or `log_type`) and `content` text fields. The mapping of missing
//! fields (the current time for a missing timestamp, `info` for a missing
//! type, empty content) is this crate's own choice: no specification of
//! the legacy entries' fields is available to follow.
use vstd::prelude::*;

verus! {

/// The text fields of one legacy log entry, each `None` when the entry has
/// no such field or the field is not a string.
pub struct LogEntryFields {
    pub timestamp: Option<String>,
    pub kind: Option<String>,
    pub log_type: Option<String>,
    pub content: Option<String>,
}

/// The character view of an optional text field.
pub open spec fn text_view(t: Option<String>) -> Option<Seq<char>> {
    match t {
        Some(s) => Some(s@),
        None => None,
    }
}

/// The fields of an entry as plain values: `timestamp`, `type`, `log_type`
/// and `content`.
pub open spec fn entry_view(e: LogEntryFields) -> (
    Option<Seq<char>>,
    Option<Seq<char>>,
    Option<Seq<char>>,
    Option<Seq<char>>,
) {
    (text_view(e.timestamp), text_view(e.kind), text_view(e.log_type), text_view(e.content))
}

/// What `serde_json::from_str::<Vec<serde_json::Value>>` reads from `json`,
/// with the string fields `timestamp`, `type`, `log_type` and `content` of
/// each element; `None` when the text is not a JSON array.
pub uninterp spec fn json_log_entries(json: Seq<char>) -> Option<
    Seq<(Option<Seq<char>>, Option<Seq<char>>, Option<Seq<char>>, Option<Seq<char>>)>,
>;

/// `serde_json::from_str::<Vec<serde_json::Value>>(json)`, then, of each
/// element, the string values of its `timestamp`, `type`, `log_type` and
/// `content` fields (`Value::get` and `Value::as_str`). The result is a
/// function of the text alone; what JSON it accepts is not spelled out.
#[verifier::external_body]
fn parse_log_entries(json: &str) -> (r: Option<Vec<LogEntryFields>>)
    ensures
        r is None ==> json_log_entries(json@) is None,
        r matches Some(v) ==> json_log_entries(json@) == Some(v@.map_values(|e: LogEntryFields| entry_view(e))),
{
    let values: Vec<serde_json::Value> = serde_json::from_str(json).ok()?;
    let text = |v: &serde_json::Value, key: &str| v.get(key).and_then(|f| f.as_str()).map(String::from);
    Some(values.iter().map(|v| LogEntryFields {
        timestamp: text(v, "timestamp"),
        kind: text(v, "type"),
        log_type: text(v, "log_type"),
        content: text(v, "content"),
    }).collect())
}

/// One `execution_logs` row: the timestamp, the log type and the content.
pub struct LogRow {
    pub timestamp: String,
    pub log_type: String,
    pub content: String,
}

/// The row of an entry: its timestamp, or `now` when it has none; its
/// `type`, else its `log_type`, else `info`; its content, else empty.
pub open spec fn row_of(
    e: (Option<Seq<char>>, Option<Seq<char>>, Option<Seq<char>>, Option<Seq<char>>),
    now: Seq<char>,
) -> (Seq<char>, Seq<char>, Seq<char>) {
    (
        match e.0 {
            Some(t) => t,
            None => now,
        },
        match e.1 {
            Some(t) => t,
            None => match e.2 {
                Some(t) => t,
                None => "info"@,
            },
        },
        match e.3 {
            Some(t) => t,
            None => Seq::empty(),
        },
    )
}

/// The view of a row.
pub open spec fn log_row_view(r: LogRow) -> (Seq<char>, Seq<char>, Seq<char>) {
    (r.timestamp@, r.log_type@, r.content@)
}

fn log_row(e: LogEntryFields, now: &str) -> (r: LogRow)
    ensures
        log_row_view(r) == row_of(entry_view(e), now@),
{
    let timestamp = match e.timestamp {
        Some(t) => t,
        None => String::from_str(now),
    };
    let log_type = match e.kind {
        Some(t) => t,
        None => match e.log_type {
            Some(t) => t,
            None => String::from_str("info"),
        },
    };
    let content = match e.content {
        Some(t) => t,
        None => String::new(),
    };
    LogRow { timestamp, log_type, content }
}

/// The `execution_logs` rows of a legacy `logs` JSON array, one per element
/// in order (entries without a timestamp get `now`); `None` when the text is
/// not a JSON array.
pub fn log_rows(logs_json: &str, now: &str) -> (r: Option<Vec<LogRow>>)
    ensures
        r is None <==> json_log_entries(logs_json@) is None,
        r matches Some(rows) ==> json_log_entries(logs_json@) matches Some(es) && rows@.len() == es.len()
            && forall|i: int| 0 <= i < es.len() ==> #[trigger] log_row_view(rows@[i]) == row_of(es[i], now@),
{
    let entries = match parse_log_entries(logs_json) {
        Some(v) => v,
        None => return None,
    };
    let ghost all = entries@;
    let ghost es = all.map_values(|e: LogEntryFields| entry_view(e));
    let mut rows: Vec<LogRow> = Vec::new();
    for e in it: entries.into_iter()
        invariant
            it.seq() == all,
            es == all.map_values(|e: LogEntryFields| entry_view(e)),
            rows@.len() == it.index(),
            forall|k: int| 0 <= k < it.index() ==> #[trigger] log_row_view(rows@[k]) == row_of(es[k], now@),
    {
        let ghost done = it.index();
        proof {
            assert(e == all[done]);
        }
        rows.push(log_row(e, now));
    }
    Some(rows)
}

} // verus!
