use process_monitor::json::monitors_to_json;
use process_monitor::monitor::{Monitor, MonitorResult, Monitors};
use process_monitor::snapshot::snapshot_file_name;

#[test]
fn empty_set_serializes_to_bare_document() {
    let set = Monitors { monitors: Vec::new() };
    assert_eq!(monitors_to_json(&set), "{\"monitors\":[]}");
}

#[test]
fn full_record_serializes_field_by_field() {
    let set = Monitors {
        monitors: vec![Monitor {
            monitor_id: Some(-5),
            name: "web".to_string(),
            script: Some("run.sh".to_string()),
            result: Some(MonitorResult { value: 42, processed_at: 1_700_000_000 }),
            monitor_type: Some("ping".to_string()),
            code: "abc".to_string(),
        }],
    };
    assert_eq!(
        monitors_to_json(&set),
        "{\"monitors\":[{\"monitor_id\":-5,\"name\":\"web\",\"script\":\"run.sh\",\
         \"result\":{\"value\":42,\"processed_at\":1700000000},\"type\":\"ping\",\
         \"code\":\"abc\"}]}"
    );
}

#[test]
fn absent_fields_serialize_to_null_and_records_keep_order() {
    let bare = |name: &str| Monitor {
        monitor_id: None,
        name: name.to_string(),
        script: None,
        result: None,
        monitor_type: None,
        code: "c".to_string(),
    };
    let set = Monitors { monitors: vec![bare("a"), bare("b")] };
    assert_eq!(
        monitors_to_json(&set),
        "{\"monitors\":[{\"monitor_id\":null,\"name\":\"a\",\"script\":null,\
         \"result\":null,\"type\":null,\"code\":\"c\"},\
         {\"monitor_id\":null,\"name\":\"b\",\"script\":null,\
         \"result\":null,\"type\":null,\"code\":\"c\"}]}"
    );
}

#[test]
fn escaped_strings_survive_a_json_round_trip() {
    let tricky = "a\"b\\c\nd\te\u{1}f";
    let set = Monitors {
        monitors: vec![Monitor {
            monitor_id: None,
            name: tricky.to_string(),
            script: None,
            result: None,
            monitor_type: None,
            code: "plain".to_string(),
        }],
    };
    let document = monitors_to_json(&set);
    let value: serde_json::Value = serde_json::from_str(&document).expect("valid JSON");
    assert_eq!(value["monitors"][0]["name"].as_str(), Some(tricky));
    assert_eq!(value["monitors"][0]["code"].as_str(), Some("plain"));
    assert!(value["monitors"][0]["result"].is_null());
}

#[test]
fn control_characters_use_lowercase_hex_escapes() {
    let set = Monitors {
        monitors: vec![Monitor {
            monitor_id: None,
            name: "x\ny".to_string(),
            script: None,
            result: None,
            monitor_type: None,
            code: "c".to_string(),
        }],
    };
    let document = monitors_to_json(&set);
    assert!(document.contains("\"x\\u000ay\""));
}

#[test]
fn negative_timestamp_serializes_with_sign() {
    let set = Monitors {
        monitors: vec![Monitor {
            monitor_id: Some(i32::MIN),
            name: "n".to_string(),
            script: None,
            result: Some(MonitorResult { value: 1, processed_at: i64::MIN }),
            monitor_type: None,
            code: "c".to_string(),
        }],
    };
    let document = monitors_to_json(&set);
    assert!(document.contains("\"monitor_id\":-2147483648"));
    assert!(document.contains("\"processed_at\":-9223372036854775808"));
}

#[test]
fn snapshot_names_embed_the_timestamp() {
    assert_eq!(snapshot_file_name(0), "0_monitors.json");
    assert_eq!(snapshot_file_name(1_700_000_000), "1700000000_monitors.json");
    assert_eq!(snapshot_file_name(u64::MAX), "18446744073709551615_monitors.json");
}

#[test]
fn snapshot_names_for_distinct_seconds_differ() {
    let mut names: Vec<String> = (0..50u64).map(snapshot_file_name).collect();
    names.sort();
    names.dedup();
    assert_eq!(names.len(), 50);
    assert_ne!(snapshot_file_name(10), snapshot_file_name(100));
}
