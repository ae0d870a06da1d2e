use vstd::prelude::*;
use crate::monitor::{Monitor, MonitorResult, Monitors, same_set_statics};
use rand::Rng;

verus! {

#[verifier::external_type_specification]
#[verifier::external_body]
pub struct ExSystemTime(std::time::SystemTime);

/// The two ways the system clock can fail the generator: a reading
/// before the epoch, or one too large for the stored width.
#[derive(Clone, Copy, Debug, PartialEq, Eq, Structural)]
pub enum ClockError {
    BeforeEpoch,
    BeyondRange,
}

/// Relies on rand's `thread_rng` and `Rng::gen_range`: a sample drawn
/// from the half-open range `[low, high)`; the call panics only on an
/// empty range, which the precondition rules out.
#[verifier::external_body]
fn random_in_range(low: i32, high: i32) -> (r: i32)
    requires
        low < high,
    ensures
        low <= r < high,
{
    rand::thread_rng().gen_range(low..high)
}

/// Relies on std's `SystemTime::now`: the current system time. Nothing
/// is promised of the reading.
#[verifier::external_body]
fn system_time_now() -> std::time::SystemTime {
    std::time::SystemTime::now()
}

/// Relies on std's `SystemTime::duration_since`: the span from the
/// epoch to `t` in whole seconds, or `None` when `t` lies before the
/// epoch. Nothing more is promised of the reading.
#[verifier::external_body]
fn seconds_since_epoch(t: std::time::SystemTime) -> (r: Option<u64>) {
    match t.duration_since(std::time::UNIX_EPOCH) {
        Ok(d) => Some(d.as_secs()),
        Err(_) => None,
    }
}

/// Build the measurement that records `value` at epoch second `now`.
/// Succeeds exactly when `now` fits the stored width.
pub fn result_from_clock(value: i32, now: u64) -> (r: Result<MonitorResult, ClockError>)
    requires
        1 <= value < 100,
    ensures
        now <= i64::MAX ==> r == Ok::<MonitorResult, ClockError>(
            MonitorResult { value, processed_at: now as i64 },
        ),
        now > i64::MAX ==> r == Err::<MonitorResult, ClockError>(ClockError::BeyondRange),
{
    if now <= i64::MAX as u64 {
        Ok(MonitorResult { value, processed_at: now as i64 })
    } else {
        Err(ClockError::BeyondRange)
    }
}

/// A measurement that one refresh cycle may produce: value uniform in
/// [1, 100), timestamp non-negative.
pub open spec fn fresh_result(res: MonitorResult) -> bool {
    &&& 1 <= res.value < 100
    &&& res.processed_at >= 0
}

/// Draw a fresh measurement: a value uniform in [1, 100) stamped with
/// the current epoch second. Fails only when the clock reading cannot
/// be expressed as a non-negative second count of the stored width.
pub fn generate_result() -> (r: Result<MonitorResult, ClockError>)
    ensures
        r matches Ok(res) ==> fresh_result(res),
{
    let value = random_in_range(1, 100);
    let t = system_time_now();
    match seconds_since_epoch(t) {
        Some(now) => result_from_clock(value, now),
        None => Err(ClockError::BeforeEpoch),
    }
}

/// Every record of `post` carries a result drawn in the cycle that
/// produced it from `pre`: same records, same statics, all results
/// fresh.
pub open spec fn freshly_refreshed(post: Monitors, pre: Monitors) -> bool {
    &&& same_set_statics(pre, post)
    &&& forall|i: int|
        0 <= i < post.monitors@.len() ==> {
            &&& (#[trigger] post.monitors@[i]).result is Some
            &&& fresh_result(post.monitors@[i].result.unwrap())
        }
}

/// The first `k` records of `post` carry results drawn in the cycle
/// that works through `pre`; the rest still hold their previous ones.
pub open spec fn refreshed_up_to(post: Monitors, pre: Monitors, k: int) -> bool {
    &&& 0 <= k <= post.monitors@.len()
    &&& (forall|j: int|
        0 <= j < k ==> (#[trigger] post.monitors@[j]).result is Some && fresh_result(
            post.monitors@[j].result.unwrap(),
        ))
    &&& (forall|j: int|
        k <= j < post.monitors@.len() ==> (#[trigger] post.monitors@[j]).result
            == pre.monitors@[j].result)
}

/// One refresh cycle over the whole set: draw a new result for every
/// record, in order. The set's length and every static field are
/// untouched whatever the clock does; on success every record carries
/// a result of this cycle, and on failure the records past the point
/// of failure still hold their previous results.
pub fn update_monitors(set: &mut Monitors) -> (r: Result<(), ClockError>)
    ensures
        same_set_statics(*old(set), *final(set)),
        r is Ok ==> freshly_refreshed(*final(set), *old(set)),
        r is Err ==> exists|k: int| #[trigger] refreshed_up_to(*final(set), *old(set), k),
{
    let n = set.monitors.len();
    let mut i: usize = 0;
    while i < n
        invariant
            n == set.monitors@.len(),
            i <= n,
            same_set_statics(*old(set), *set),
            forall|j: int|
                0 <= j < i ==> (#[trigger] set.monitors@[j]).result is Some && fresh_result(
                    set.monitors@[j].result.unwrap(),
                ),
            forall|j: int|
                i <= j < n ==> (#[trigger] set.monitors@[j]).result == old(set).monitors@[j].result,
        decreases n - i,
    {
        match generate_result() {
            Ok(res) => {
                set.monitors[i].result = Some(res);
            },
            Err(e) => {
                proof {
                    assert(refreshed_up_to(*set, *old(set), i as int));
                }
                return Err(e);
            },
        }
        i = i + 1;
    }
    Ok(())
}

/// Per-cycle atomicity as a snapshot sees it. A refresh cycle
/// replaces every record's result within one exclusive acquisition,
/// and a snapshot serializes the set as some acquisition left it; so
/// a snapshot taken around a cycle that turned `pre` into `post` holds
/// either every record's pre-cycle result or a fresh result for every
/// record — never results of that cycle for some records and older
/// ones for others.
pub proof fn lemma_snapshot_sees_whole_cycles(pre: Monitors, post: Monitors, snap: Monitors)
    requires
        freshly_refreshed(post, pre),
        snap == pre || snap == post,
    ensures
        (forall|i: int|
            0 <= i < snap.monitors@.len() ==> (#[trigger] snap.monitors@[i]).result
                == pre.monitors@[i].result) || (forall|i: int|
            0 <= i < snap.monitors@.len() ==> (#[trigger] snap.monitors@[i]).result is Some
                && fresh_result(snap.monitors@[i].result.unwrap())),
{
}

} // verus!
