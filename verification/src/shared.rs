use vstd::prelude::*;
use vstd::rwlock::{RwLock, RwLockPredicate};
use crate::generator::{update_monitors, ClockError};
use crate::json::{json_monitors, monitors_to_json};
use crate::monitor::{Monitor, Monitors, same_set_statics, same_statics};

verus! {

/// The static half of one record: everything but `result`, as plain
/// mathematical values.
pub struct MonitorStatics {
    pub monitor_id: Option<i32>,
    pub name: Seq<char>,
    pub script: Option<Seq<char>>,
    pub monitor_type: Option<Seq<char>>,
    pub code: Seq<char>,
}

pub open spec fn statics_of(m: Monitor) -> MonitorStatics {
    MonitorStatics {
        monitor_id: m.monitor_id,
        name: m.name@,
        script: m.script.deep_view(),
        monitor_type: m.monitor_type.deep_view(),
        code: m.code@,
    }
}

/// The static half of a whole set, in order.
pub open spec fn set_statics(s: Monitors) -> Seq<MonitorStatics> {
    s.monitors@.map_values(|m: Monitor| statics_of(m))
}

pub proof fn lemma_same_statics_iff(a: Monitors, b: Monitors)
    ensures
        same_set_statics(a, b) <==> set_statics(a) == set_statics(b),
{
    if same_set_statics(a, b) {
        assert(set_statics(a) =~= set_statics(b));
    }
    if set_statics(a) == set_statics(b) {
        assert(set_statics(a).len() == a.monitors@.len());
        assert(set_statics(b).len() == b.monitors@.len());
        assert forall|i: int| 0 <= i < a.monitors@.len() implies same_statics(
            #[trigger] a.monitors@[i],
            b.monitors@[i],
        ) by {
            assert(set_statics(a)[i] == statics_of(a.monitors@[i]));
            assert(set_statics(b)[i] == statics_of(b.monitors@[i]));
        }
    }
}

/// What may sit in the shared lock: only sets whose static half is the
/// one pinned when the run started.
pub struct StaticsPred {
    pub statics: Seq<MonitorStatics>,
}

impl RwLockPredicate<Monitors> for StaticsPred {
    open spec fn inv(self, v: Monitors) -> bool {
        set_statics(v) == self.statics
    }
}

/// The monitor set behind the run's one mutual-exclusion lock. Every
/// access — refresh or snapshot — goes through an exclusive
/// acquisition, so each sees and leaves a whole set; the lock's
/// invariant pins the set's length and every static field to their
/// load-time values for the whole run.
pub struct SharedState {
    lock: RwLock<Monitors, StaticsPred>,
}

impl SharedState {
    /// The static half pinned for this run.
    pub closed spec fn statics(&self) -> Seq<MonitorStatics> {
        self.lock.pred().statics
    }

    /// Wrap a freshly loaded set; no record will be added, removed or
    /// relabelled under this handle.
    pub fn new(set: Monitors) -> (s: SharedState)
        ensures
            s.statics() == set_statics(set),
    {
        let ghost pred = StaticsPred { statics: set_statics(set) };
        SharedState { lock: RwLock::new(set, Ghost(pred)) }
    }

    /// One refresh cycle under the exclusive lock: every record gets a
    /// fresh result within a single acquisition, and the set that the
    /// cycle leaves behind carries the statics the run was loaded
    /// with.
    pub fn refresh(&self) -> (r: Result<(), ClockError>) {
        let (mut set, handle) = self.lock.acquire_write();
        let ghost before = set;
        let r = update_monitors(&mut set);
        proof {
            lemma_same_statics_iff(before, set);
        }
        handle.release_write(set);
        r
    }

    /// Serialize the current set under the same exclusive lock the
    /// refresh cycles use. The document is the serialization of one
    /// whole set carrying the run's statics — never of a state mixing
    /// records from before and after a cycle in progress.
    pub fn snapshot_document(&self) -> (r: String)
        ensures
            exists|v: Monitors|
                set_statics(v) == self.statics() && r@ == #[trigger] json_monitors(v),
    {
        let (set, handle) = self.lock.acquire_write();
        let doc = monitors_to_json(&set);
        let ghost witness = set;
        handle.release_write(set);
        proof {
            assert(set_statics(witness) == self.statics() && doc@ == json_monitors(witness));
        }
        doc
    }
}

} // verus!
