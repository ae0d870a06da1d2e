use process_monitor::monitor::{LoadError, MonitorResult, RawMonitor, validate_monitors};

fn raw(name: Option<&str>, code: Option<&str>) -> RawMonitor {
    RawMonitor {
        monitor_id: None,
        name: name.map(|s| s.to_string()),
        script: None,
        result: None,
        monitor_type: None,
        code: code.map(|s| s.to_string()),
    }
}

#[test]
fn missing_name_is_rejected() {
    let records = vec![raw(None, Some("c"))];
    assert_eq!(validate_monitors(&records).unwrap_err(), LoadError::MissingName(0));
}

#[test]
fn empty_name_is_rejected() {
    let records = vec![raw(Some("ok"), Some("c")), raw(Some(""), Some("c"))];
    assert_eq!(validate_monitors(&records).unwrap_err(), LoadError::EmptyName(1));
}

#[test]
fn missing_code_is_rejected() {
    let records = vec![raw(Some("ok"), None)];
    assert_eq!(validate_monitors(&records).unwrap_err(), LoadError::MissingCode(0));
}

#[test]
fn first_offending_record_is_reported() {
    let records = vec![raw(Some("ok"), Some("c")), raw(None, None), raw(Some(""), Some("c"))];
    assert_eq!(validate_monitors(&records).unwrap_err(), LoadError::MissingName(1));
}

#[test]
fn valid_records_are_carried_over() {
    let mut first = raw(Some("alpha"), Some("c1"));
    first.monitor_id = Some(12);
    first.script = Some("probe.sh".to_string());
    first.monitor_type = Some("http".to_string());
    first.result = Some(MonitorResult { value: 9, processed_at: 100 });
    let records = vec![first, raw(Some("beta"), Some("c2"))];
    let set = validate_monitors(&records).expect("both records are valid");
    assert_eq!(set.monitors.len(), 2);
    assert_eq!(set.monitors[0].monitor_id, Some(12));
    assert_eq!(set.monitors[0].name, "alpha");
    assert_eq!(set.monitors[0].script.as_deref(), Some("probe.sh"));
    assert_eq!(set.monitors[0].monitor_type.as_deref(), Some("http"));
    assert_eq!(set.monitors[0].code, "c1");
    let r = set.monitors[0].result.expect("result kept");
    assert_eq!(r.value, 9);
    assert_eq!(r.processed_at, 100);
    assert_eq!(set.monitors[1].name, "beta");
    assert_eq!(set.monitors[1].code, "c2");
    assert!(set.monitors[1].result.is_none());
}

#[test]
fn load_error_messages_name_the_record() {
    assert_eq!(
        LoadError::MissingName(0).message(),
        "Monitor record 0: missing required field 'name'"
    );
    assert_eq!(LoadError::EmptyName(3).message(), "Monitor record 3: field 'name' is empty");
    assert_eq!(
        LoadError::MissingCode(17).message(),
        "Monitor record 17: missing required field 'code'"
    );
}
