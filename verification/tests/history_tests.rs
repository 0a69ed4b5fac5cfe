use sharextended::history::{
    get_deletion_urls, get_history_urls, parse_history_json, repair_history_json, select,
    HistoryError, HistoryRecord,
};
use sharextended::timestamp::default_cutoff;
use sharextended::util::{get_path_input, is_interactive, Args, Command};

fn rfc3339(epoch: i64) -> String {
    chrono::DateTime::from_timestamp(epoch, 0)
        .expect("valid epoch")
        .to_rfc3339()
}

fn record_json(host: &str, deletion_url: Option<&str>, epoch: i64) -> String {
    let del = match deletion_url {
        Some(u) => format!(",\"DeletionURL\":\"{}\"", u),
        None => String::new(),
    };
    format!(
        "{{\"FileName\":\"shot.png\",\"DateTime\":\"{}\",\"Type\":\"Image\",\"Host\":\"{}\"{}}}",
        rfc3339(epoch),
        host,
        del
    )
}

fn plain_record(host: &str, deletion_url: Option<&str>, epoch: i64) -> HistoryRecord {
    HistoryRecord {
        file_name: String::from("shot.png"),
        file_path: None,
        uploaded_at: epoch,
        kind: String::from("Image"),
        host: String::from(host),
        tags: None,
        remote_url: None,
        thumbnail_url: None,
        deletion_endpoint: deletion_url.map(String::from),
    }
}

#[test]
fn repair_wraps_in_brackets() {
    assert_eq!(repair_history_json("abc"), "[abc]");
    assert_eq!(repair_history_json(""), "[]");
}

#[test]
fn decode_counts_match_object_count() {
    let contents = format!(
        "{},{},{}",
        record_json("Imgur", Some("https://imgur.com/delete/a"), 1000),
        record_json("Imgur", Some("https://imgur.com/delete/b"), 2000),
        record_json("Other", None, 3000)
    );
    let wrapped = repair_history_json(&contents);
    let records = parse_history_json(&wrapped).expect("well-formed log decodes");
    assert_eq!(records.len(), 3);
    assert_eq!(records[0].host, "Imgur");
    assert_eq!(records[0].uploaded_at, 1000);
    assert_eq!(
        records[0].deletion_endpoint.as_deref(),
        Some("https://imgur.com/delete/a")
    );
    assert_eq!(records[2].host, "Other");
    assert_eq!(records[2].deletion_endpoint, None);
}

#[test]
fn decode_empty_log_gives_no_records() {
    let wrapped = repair_history_json("");
    let records = parse_history_json(&wrapped).expect("empty log decodes");
    assert_eq!(records.len(), 0);
}

#[test]
fn decode_missing_comma_fails() {
    let contents = format!(
        "{}{}",
        record_json("Imgur", Some("https://imgur.com/delete/a"), 1000),
        record_json("Imgur", Some("https://imgur.com/delete/b"), 2000)
    );
    let wrapped = repair_history_json(&contents);
    let r = parse_history_json(&wrapped);
    assert!(matches!(r, Err(HistoryError::Parse { .. })));
}

#[test]
fn decode_missing_required_field_fails() {
    let wrapped = repair_history_json(
        "{\"FileName\":\"shot.png\",\"DateTime\":\"2023-05-04T21:38:29+02:00\",\"Type\":\"Image\"}",
    );
    let r = parse_history_json(&wrapped);
    assert!(matches!(r, Err(HistoryError::Parse { .. })));
}

#[test]
fn decode_bad_timestamp_fails() {
    let wrapped = repair_history_json(
        "{\"FileName\":\"shot.png\",\"DateTime\":\"yesterday\",\"Type\":\"Image\",\"Host\":\"Imgur\"}",
    );
    let r = parse_history_json(&wrapped);
    assert!(matches!(r, Err(HistoryError::Parse { .. })));
}

#[test]
fn decode_non_object_element_fails() {
    let r = parse_history_json(&repair_history_json("42"));
    assert!(matches!(r, Err(HistoryError::Parse { .. })));
}

#[test]
fn decode_optional_fields_and_tags() {
    let wrapped = repair_history_json(
        "{\"FileName\":\"shot.png\",\"FilePath\":null,\"DateTime\":\"2023-05-04T21:38:29+02:00\",\
         \"Type\":\"Image\",\"Host\":\"Imgur\",\
         \"Tags\":{\"ProcessName\":\"firefox\"},\
         \"URL\":\"https://i.imgur.com/x.png\"}",
    );
    let records = parse_history_json(&wrapped).expect("record decodes");
    assert_eq!(records.len(), 1);
    let r = &records[0];
    assert_eq!(r.file_path, None);
    assert_eq!(r.remote_url.as_deref(), Some("https://i.imgur.com/x.png"));
    assert_eq!(r.thumbnail_url, None);
    let tags = r.tags.as_ref().expect("tags present");
    assert_eq!(tags.process_name, "firefox");
    assert_eq!(tags.window_title, None);
}

#[test]
fn decode_wrongly_typed_optional_field_fails() {
    let wrapped = repair_history_json(
        "{\"FileName\":\"shot.png\",\"DateTime\":\"2023-05-04T21:38:29+02:00\",\
         \"Type\":\"Image\",\"Host\":\"Imgur\",\"DeletionURL\":5}",
    );
    let r = parse_history_json(&wrapped);
    assert!(matches!(r, Err(HistoryError::Parse { .. })));
}

#[test]
fn decode_malformed_tags_fails() {
    let wrapped = repair_history_json(
        "{\"FileName\":\"shot.png\",\"DateTime\":\"2023-05-04T21:38:29+02:00\",\
         \"Type\":\"Image\",\"Host\":\"Imgur\",\"Tags\":{\"WindowTitle\":\"w\"}}",
    );
    let r = parse_history_json(&wrapped);
    assert!(matches!(r, Err(HistoryError::Parse { .. })));
}

#[test]
fn select_returns_exactly_the_eligible_endpoints_in_order() {
    let records = vec![
        plain_record("Imgur", Some("https://imgur.com/delete/a"), 500),
        plain_record("Imgur", Some(""), 500),
        plain_record("Other", Some("https://other.example/delete/b"), 500),
        plain_record("Imgur", None, 500),
        plain_record("Imgur", Some("https://imgur.com/delete/c"), 100),
        plain_record("Imgur", Some("https://imgur.com/delete/d"), 400),
    ];
    let host = String::from("Imgur");
    let picked = select(&records, &host, 200);
    assert_eq!(
        picked,
        vec![
            String::from("https://imgur.com/delete/a"),
            String::from("https://imgur.com/delete/d"),
        ]
    );
}

#[test]
fn select_cutoff_is_strict() {
    let records = vec![plain_record("Imgur", Some("https://imgur.com/delete/a"), 200)];
    let host = String::from("Imgur");
    assert_eq!(select(&records, &host, 200).len(), 0);
    assert_eq!(select(&records, &host, 199).len(), 1);
}

#[test]
fn select_host_match_is_exact_and_case_sensitive() {
    let records = vec![plain_record("imgur", Some("https://imgur.com/delete/a"), 500)];
    let host = String::from("Imgur");
    assert_eq!(select(&records, &host, 0).len(), 0);
}

#[test]
fn selected_endpoints_all_carry_a_capability() {
    let records = vec![
        plain_record("Imgur", Some("https://imgur.com/delete/a"), 500),
        plain_record("Imgur", Some(""), 500),
        plain_record("Imgur", None, 500),
    ];
    let host = String::from("Imgur");
    let picked = select(&records, &host, 0);
    assert!(picked.iter().all(|e| !e.is_empty()));
    assert_eq!(picked.len(), 1);
}

#[test]
fn get_deletion_urls_ignores_host_and_age() {
    let records = vec![
        plain_record("Imgur", Some("https://imgur.com/delete/a"), 1),
        plain_record("Other", Some("https://other.example/delete/b"), 2),
        plain_record("Imgur", Some(""), 3),
        plain_record("Imgur", None, 4),
    ];
    let urls = get_deletion_urls(&records);
    assert_eq!(
        urls,
        vec![
            String::from("https://imgur.com/delete/a"),
            String::from("https://other.example/delete/b"),
        ]
    );
}

#[test]
fn purge_scenario_three_records_one_eligible() {
    let now = chrono::Local::now().timestamp();
    // One eligible record from late yesterday, one Imgur record without a
    // capability, one recent record on another host.
    let contents = format!(
        "{},{},{}",
        record_json("Imgur", Some("https://imgur.com/delete/a"), now - 82800),
        record_json("Imgur", Some(""), now - 82800),
        record_json("Other", Some("https://other.example/delete/b"), now)
    );
    let host = String::from("Imgur");
    let cutoff = default_cutoff(now);
    let urls = get_history_urls(&contents, &host, cutoff).expect("log decodes");
    assert_eq!(urls, vec![String::from("https://imgur.com/delete/a")]);
}

#[test]
fn get_history_urls_propagates_parse_failure() {
    let host = String::from("Imgur");
    let r = get_history_urls("{\"FileName\":", &host, 0);
    assert!(matches!(r, Err(HistoryError::Parse { .. })));
}

#[test]
fn default_cutoff_is_one_day_before() {
    assert_eq!(default_cutoff(2 * 86400), 86400);
    assert_eq!(default_cutoff(86400), 0);
}

#[test]
fn error_descriptions() {
    let e = HistoryError::PathNotFound;
    assert_eq!(e.describe(), "history file path does not exist");
    let io = HistoryError::Io {
        message: String::from("permission denied"),
    };
    assert_eq!(io.describe(), "permission denied");
    let p = HistoryError::Parse {
        message: String::from("bad record"),
    };
    assert_eq!(p.describe(), "bad record");
}

#[test]
fn interactive_iff_no_subcommand() {
    let none = Args { command: None };
    assert!(is_interactive(&none));
    let some = Args {
        command: Some(Command::PurgeOnline { path: None }),
    };
    assert!(!is_interactive(&some));
}

#[test]
fn path_input_prefers_explicit_path() {
    let picked = get_path_input(
        Some(String::from("/tmp/History.json")),
        String::from("/home/u/Documents/ShareX/History.json"),
    );
    assert_eq!(picked, "/tmp/History.json");
    let fallback = get_path_input(None, String::from("/home/u/Documents/ShareX/History.json"));
    assert_eq!(fallback, "/home/u/Documents/ShareX/History.json");
}
