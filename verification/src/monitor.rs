use vstd::prelude::*;
use crate::text::{dec_rep, push_decimal};

verus! {

/// One measurement produced for a monitor: the drawn value and the
/// epoch second at which it was produced.
#[derive(Clone, Copy, Debug, PartialEq, Eq, Structural)]
pub struct MonitorResult {
    pub value: i32,
    pub processed_at: i64,
}

/// One monitored item. Every field but `result` is fixed at load time;
/// `result` is the only field a refresh cycle may replace.
#[derive(Debug)]
pub struct Monitor {
    pub monitor_id: Option<i32>,
    pub name: String,
    pub script: Option<String>,
    pub result: Option<MonitorResult>,
    pub monitor_type: Option<String>,
    pub code: String,
}

/// The ordered collection of monitors: the unit that the refresh and
/// snapshot cycles share. Order is preserved from load onwards.
#[derive(Debug)]
pub struct Monitors {
    pub monitors: Vec<Monitor>,
}

/// A record as it arrives from the loader, before the required fields
/// have been checked: every field may still be absent.
#[derive(Debug)]
pub struct RawMonitor {
    pub monitor_id: Option<i32>,
    pub name: Option<String>,
    pub script: Option<String>,
    pub result: Option<MonitorResult>,
    pub monitor_type: Option<String>,
    pub code: Option<String>,
}

/// Why a loaded document was rejected; the index says which record.
#[derive(Clone, Copy, Debug, PartialEq, Eq, Structural)]
pub enum LoadError {
    MissingName(usize),
    EmptyName(usize),
    MissingCode(usize),
}

impl LoadError {
    /// The diagnostic printed when a loaded document is rejected.
    pub fn message(&self) -> (r: String)
        ensures
            match *self {
                LoadError::MissingName(i) => r@ == "Monitor record "@ + dec_rep(i as nat)
                    + ": missing required field 'name'"@,
                LoadError::EmptyName(i) => r@ == "Monitor record "@ + dec_rep(i as nat)
                    + ": field 'name' is empty"@,
                LoadError::MissingCode(i) => r@ == "Monitor record "@ + dec_rep(i as nat)
                    + ": missing required field 'code'"@,
            },
    {
        let mut out = String::from_str("Monitor record ");
        match self {
            LoadError::MissingName(i) => {
                push_decimal(&mut out, *i as u64);
                out.append(": missing required field 'name'");
                proof {
                    assert(out@ =~= "Monitor record "@ + dec_rep(*i as nat)
                        + ": missing required field 'name'"@);
                }
            },
            LoadError::EmptyName(i) => {
                push_decimal(&mut out, *i as u64);
                out.append(": field 'name' is empty");
                proof {
                    assert(out@ =~= "Monitor record "@ + dec_rep(*i as nat)
                        + ": field 'name' is empty"@);
                }
            },
            LoadError::MissingCode(i) => {
                push_decimal(&mut out, *i as u64);
                out.append(": missing required field 'code'");
                proof {
                    assert(out@ =~= "Monitor record "@ + dec_rep(*i as nat)
                        + ": missing required field 'code'"@);
                }
            },
        }
        out
    }
}

/// The static fields of `b` (everything but `result`) equal those of `a`.
pub open spec fn same_statics(a: Monitor, b: Monitor) -> bool {
    &&& a.monitor_id == b.monitor_id
    &&& a.name@ == b.name@
    &&& a.script.deep_view() == b.script.deep_view()
    &&& a.monitor_type.deep_view() == b.monitor_type.deep_view()
    &&& a.code@ == b.code@
}

/// `b` holds the same records as `a`, in the same order, each with the
/// same static fields; only the `result` fields may differ.
pub open spec fn same_set_statics(a: Monitors, b: Monitors) -> bool {
    &&& a.monitors@.len() == b.monitors@.len()
    &&& forall|i: int|
        0 <= i < a.monitors@.len() ==> same_statics(#[trigger] a.monitors@[i], b.monitors@[i])
}

pub proof fn lemma_same_set_statics_reflexive(a: Monitors)
    ensures
        same_set_statics(a, a),
{
}

pub proof fn lemma_same_set_statics_transitive(a: Monitors, b: Monitors, c: Monitors)
    requires
        same_set_statics(a, b),
        same_set_statics(b, c),
    ensures
        same_set_statics(a, c),
{
}

/// Over any number of refresh cycles, the set keeps its length and
/// every record keeps its `monitor_id`, `name`, `script`, `type` and
/// `code`: given the states the set goes through, each cycle leaving
/// the statics alone, the last state's statics are the first's.
pub proof fn lemma_statics_preserved_over_run(states: Seq<Monitors>)
    requires
        states.len() >= 1,
        forall|i: int|
            0 <= i < states.len() - 1 ==> same_set_statics(#[trigger] states[i], states[i + 1]),
    ensures
        same_set_statics(states[0], states[states.len() - 1]),
    decreases states.len(),
{
    if states.len() == 1 {
        lemma_same_set_statics_reflexive(states[0]);
    } else {
        let prefix = states.drop_last();
        assert(forall|i: int|
            0 <= i < prefix.len() - 1 ==> same_set_statics(#[trigger] prefix[i], prefix[i + 1]));
        lemma_statics_preserved_over_run(prefix);
        lemma_same_set_statics_transitive(
            states[0],
            states[states.len() - 2],
            states[states.len() - 1],
        );
    }
}

/// A raw record carries everything the format requires: a non-empty
/// `name` and a `code`.
pub open spec fn raw_valid(r: RawMonitor) -> bool {
    &&& r.name is Some
    &&& r.name.unwrap()@.len() > 0
    &&& r.code is Some
}

/// The rejection that record `r`, standing at index `i`, earns.
pub open spec fn raw_error(r: RawMonitor, i: int) -> LoadError {
    if r.name is None {
        LoadError::MissingName(i as usize)
    } else if r.name.unwrap()@.len() == 0 {
        LoadError::EmptyName(i as usize)
    } else {
        LoadError::MissingCode(i as usize)
    }
}

/// The monitor that a valid raw record loads to: the fields carried
/// over unchanged, including any `result` already present.
pub open spec fn loaded_from(m: Monitor, r: RawMonitor) -> bool {
    &&& m.monitor_id == r.monitor_id
    &&& m.name@ == r.name.unwrap()@
    &&& m.script.deep_view() == r.script.deep_view()
    &&& m.result == r.result
    &&& m.monitor_type.deep_view() == r.monitor_type.deep_view()
    &&& m.code@ == r.code.unwrap()@
}

/// Check a loaded document and build the monitor set from it.
///
/// Succeeds exactly when every record carries a non-empty `name` and a
/// `code`; otherwise reports the first offending record and why.
pub fn validate_monitors(raw: &Vec<RawMonitor>) -> (r: Result<Monitors, LoadError>)
    ensures
        match r {
            Ok(set) => {
                &&& forall|i: int| 0 <= i < raw@.len() ==> raw_valid(#[trigger] raw@[i])
                &&& set.monitors@.len() == raw@.len()
                &&& forall|i: int|
                    0 <= i < raw@.len() ==> loaded_from(#[trigger] set.monitors@[i], raw@[i])
            },
            Err(e) => exists|i: int|
                {
                    &&& 0 <= i < raw@.len()
                    &&& !raw_valid(#[trigger] raw@[i])
                    &&& (forall|j: int| 0 <= j < i ==> raw_valid(#[trigger] raw@[j]))
                    &&& e == raw_error(raw@[i], i)
                },
        },
{
    let mut out: Vec<Monitor> = Vec::new();
    let mut i: usize = 0;
    while i < raw.len()
        invariant
            i <= raw@.len(),
            out@.len() == i,
            forall|j: int| 0 <= j < i ==> raw_valid(#[trigger] raw@[j]),
            forall|j: int| 0 <= j < i ==> loaded_from(#[trigger] out@[j], raw@[j]),
        decreases raw@.len() - i,
    {
        let rm = &raw[i];
        let name = match &rm.name {
            Some(n) => {
                if n.as_str().is_empty() {
                    return Err(LoadError::EmptyName(i));
                }
                n.clone()
            },
            None => {
                return Err(LoadError::MissingName(i));
            },
        };
        let code = match &rm.code {
            Some(c) => c.clone(),
            None => {
                return Err(LoadError::MissingCode(i));
            },
        };
        let m = Monitor {
            monitor_id: rm.monitor_id,
            name,
            script: rm.script.clone(),
            result: rm.result,
            monitor_type: rm.monitor_type.clone(),
            code,
        };
        out.push(m);
        i = i + 1;
    }
    Ok(Monitors { monitors: out })
}

} // verus!
