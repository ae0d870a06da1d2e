use process_monitor::generator::update_monitors;
use process_monitor::json::monitors_to_json;
use process_monitor::monitor::{Monitor, Monitors};
use process_monitor::schedule::{next_step, Directive, Phase, Schedule};
use process_monitor::shared::SharedState;
use process_monitor::snapshot::snapshot_file_name;

fn plain_monitor(name: &str) -> Monitor {
    Monitor {
        monitor_id: None,
        name: name.to_string(),
        script: None,
        result: None,
        monitor_type: None,
        code: "c".to_string(),
    }
}

/// Drive one loop against its schedule with an ideal clock: time
/// advances by the interval at each sleep. Work refreshes the set when
/// `refresh` is true, otherwise it records a snapshot. Returns the
/// number of work cycles performed and the snapshot documents taken.
fn drive_loop(set: &mut Monitors, sched: Schedule, refresh: bool) -> (u64, Vec<(String, String)>) {
    let mut phase = Phase::Idle;
    let mut elapsed: u64 = 0;
    let mut cycles: u64 = 0;
    let mut snapshots: Vec<(String, String)> = Vec::new();
    loop {
        let (next, directive) = next_step(phase, &sched, elapsed);
        phase = next;
        match directive {
            Directive::Sleep => elapsed += sched.interval,
            Directive::Work => {
                cycles += 1;
                if refresh {
                    update_monitors(set).expect("clock failure");
                } else {
                    let body = monitors_to_json(set);
                    let name = snapshot_file_name(elapsed);
                    snapshots.push((name, body));
                }
            }
            Directive::Stop => break,
        }
    }
    (cycles, snapshots)
}

#[test]
fn zero_duration_run_does_nothing() {
    let mut set = Monitors {
        monitors: vec![plain_monitor("a"), plain_monitor("b"), plain_monitor("c")],
    };
    let (refresh_cycles, _) = drive_loop(&mut set, Schedule { interval: 30, total: 0 }, true);
    let (store_cycles, snapshots) = drive_loop(&mut set, Schedule { interval: 60, total: 0 }, false);
    assert_eq!(refresh_cycles, 0);
    assert_eq!(store_cycles, 0);
    assert!(snapshots.is_empty());
    assert_eq!(set.monitors.len(), 3);
    for m in &set.monitors {
        assert!(m.result.is_none());
    }
}

#[test]
fn three_unit_run_refreshes_three_times() {
    let mut set = Monitors { monitors: vec![plain_monitor("only")] };
    let (cycles, _) = drive_loop(&mut set, Schedule { interval: 1, total: 3 }, true);
    assert_eq!(cycles, 3);
    let result = set.monitors[0].result.expect("refreshed at least once");
    assert!(1 <= result.value && result.value < 100);
}

#[test]
fn reference_schedule_runs_ten_refresh_and_five_store_cycles() {
    let mut set = Monitors { monitors: vec![plain_monitor("ref")] };
    let (refresh_cycles, _) = drive_loop(&mut set, Schedule { interval: 30, total: 300 }, true);
    let (store_cycles, snapshots) =
        drive_loop(&mut set, Schedule { interval: 60, total: 300 }, false);
    assert_eq!(refresh_cycles, 10);
    assert_eq!(store_cycles, 5);
    assert_eq!(snapshots.len(), 5);
}

#[test]
fn zero_duration_rerun_is_identical() {
    for _ in 0..2 {
        let mut set = Monitors { monitors: vec![plain_monitor("same")] };
        let (cycles, _) = drive_loop(&mut set, Schedule { interval: 30, total: 0 }, true);
        let (_, snapshots) = drive_loop(&mut set, Schedule { interval: 60, total: 0 }, false);
        assert_eq!(cycles, 0);
        assert!(snapshots.is_empty());
        assert!(set.monitors[0].result.is_none());
        assert_eq!(monitors_to_json(&set), monitors_to_json(&set));
    }
}

#[test]
fn terminated_loop_stays_terminated() {
    let sched = Schedule { interval: 30, total: 300 };
    let (phase, directive) = next_step(Phase::Terminated, &sched, 1000);
    assert_eq!(phase, Phase::Terminated);
    assert_eq!(directive, Directive::Stop);
    let (phase2, directive2) = next_step(Phase::Terminated, &sched, 0);
    assert_eq!(phase2, Phase::Terminated);
    assert_eq!(directive2, Directive::Stop);
}

#[test]
fn shared_state_refresh_and_snapshot_agree() {
    let set = Monitors { monitors: vec![plain_monitor("a"), plain_monitor("b")] };
    let shared = SharedState::new(set);
    let before: serde_json::Value =
        serde_json::from_str(&shared.snapshot_document()).expect("valid JSON");
    assert!(before["monitors"][0]["result"].is_null());
    shared.refresh().expect("clock available");
    let after: serde_json::Value =
        serde_json::from_str(&shared.snapshot_document()).expect("valid JSON");
    let records = after["monitors"].as_array().expect("array kept");
    assert_eq!(records.len(), 2);
    for (i, name) in ["a", "b"].iter().enumerate() {
        assert_eq!(records[i]["name"].as_str(), Some(*name));
        let value = records[i]["result"]["value"].as_i64().expect("refreshed");
        assert!((1..100).contains(&value));
    }
}
