use vstd::prelude::*;
use crate::text::{dec_rep, lemma_dec_rep_injective, push_decimal};

verus! {

/// The name of the snapshot file written at epoch second `ts`.
pub open spec fn snapshot_name(ts: u64) -> Seq<char> {
    dec_rep(ts as nat) + "_monitors.json"@
}

/// Build the name of the snapshot file for epoch second `ts`: the
/// timestamp in decimal, then `_monitors.json`.
pub fn snapshot_file_name(ts: u64) -> (r: String)
    ensures
        r@ == snapshot_name(ts),
{
    let mut out = String::new();
    push_decimal(&mut out, ts);
    out.append("_monitors.json");
    proof {
        assert(out@ =~= snapshot_name(ts));
    }
    out
}

/// Snapshots written at distinct epoch seconds get distinct file
/// names: the decimal timestamp alone decides the name, and two
/// numbers never share a decimal writing. (Two snapshots within the
/// same second would share a name; that collision window is accepted.)
pub proof fn lemma_snapshot_names_distinct(t1: u64, t2: u64)
    requires
        t1 != t2,
    ensures
        snapshot_name(t1) != snapshot_name(t2),
{
    if snapshot_name(t1) == snapshot_name(t2) {
        let d1 = dec_rep(t1 as nat);
        let d2 = dec_rep(t2 as nat);
        let sfx = "_monitors.json"@;
        assert(snapshot_name(t1).len() == d1.len() + sfx.len());
        assert(snapshot_name(t2).len() == d2.len() + sfx.len());
        assert(d1.len() == d2.len());
        assert forall|i: int| 0 <= i < d1.len() implies d1[i] == d2[i] by {
            assert(snapshot_name(t1)[i] == d1[i]);
            assert(snapshot_name(t2)[i] == d2[i]);
        }
        assert(d1 =~= d2);
        lemma_dec_rep_injective(t1 as nat, t2 as nat);
    }
}

} // verus!
