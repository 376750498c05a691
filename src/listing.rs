//! The listing of runs: runs whose record could not be read are set apart,
//! and the others are ordered running first, then by start time.

use vstd::prelude::*;
use vstd::multiset::Multiset;
use crate::record::{is_done, RunData};

verus! {

/// A run together with its record.
#[derive(Clone, Debug, PartialEq, Eq)]
pub struct RunEntry {
    pub id: String,
    pub data: RunData,
}

/// The entries whose record was read, in their order.
pub open spec fn readable(entries: Seq<(String, Option<RunData>)>) -> Seq<RunEntry>
    decreases entries.len(),
{
    if entries.len() == 0 {
        Seq::empty()
    } else {
        let rest = readable(entries.drop_last());
        match entries.last().1 {
            Some(data) => rest.push(RunEntry { id: entries.last().0, data }),
            None => rest,
        }
    }
}

/// The ids of the entries whose record could not be read, in their order.
pub open spec fn damaged(entries: Seq<(String, Option<RunData>)>) -> Seq<String>
    decreases entries.len(),
{
    if entries.len() == 0 {
        Seq::empty()
    } else {
        let rest = damaged(entries.drop_last());
        match entries.last().1 {
            Some(_) => rest,
            None => rest.push(entries.last().0),
        }
    }
}

/// The place of a run in the listing: running runs first, then by start.
pub open spec fn listed_before_or_with(a: RunEntry, b: RunEntry) -> bool {
    let ra = if is_done(a.data.state) { 1int } else { 0int };
    let rb = if is_done(b.data.state) { 1int } else { 0int };
    ra < rb || (ra == rb && (a.data.start_datetime.secs < b.data.start_datetime.secs || (
    a.data.start_datetime.secs == b.data.start_datetime.secs && a.data.start_datetime.nanos
        <= b.data.start_datetime.nanos)))
}

/// Whether `s` is in listing order.
pub open spec fn in_listing_order(s: Seq<RunEntry>) -> bool {
    forall|i: int, j: int| 0 <= i < j < s.len() ==> listed_before_or_with(#[trigger] s[i], #[trigger] s[j])
}

/// Sets apart the runs whose record could not be read (`None`) from the
/// others; one damaged run never hides the rest.
pub fn split_damaged(entries: Vec<(String, Option<RunData>)>) -> (r: (Vec<RunEntry>, Vec<String>))
    ensures
        r.0@ == readable(entries@),
        r.1@ == damaged(entries@),
{
    let ghost all = entries@;
    let n = entries.len();
    let mut rest = entries;
    let mut good: Vec<RunEntry> = Vec::new();
    let mut bad: Vec<String> = Vec::new();
    let mut i: usize = 0;
    while rest.len() > 0
        invariant
            i <= all.len(),
            all.len() == n,
            i + rest@.len() == all.len(),
            rest@ == all.skip(i as int),
            good@ == readable(all.take(i as int)),
            bad@ == damaged(all.take(i as int)),
        decreases rest@.len(),
    {
        let (id, data) = rest.remove(0);
        assert(all.take(i + 1).drop_last() =~= all.take(i as int));
        assert(all[i as int] == (id, data));
        match data {
            Some(d) => good.push(RunEntry { id, data: d }),
            None => bad.push(id),
        }
        i = i + 1;
        assert(rest@ =~= all.skip(i as int));
    }
    assert(all.take(i as int) =~= all);
    (good, bad)
}

/// Whether `a` comes before or with `b` in the listing.
fn before_or_with(a: &RunEntry, b: &RunEntry) -> (r: bool)
    ensures
        r == listed_before_or_with(*a, *b),
{
    let ra = a.data.is_running();
    let rb = b.data.is_running();
    if ra != rb {
        ra
    } else {
        let sa = a.data.start_datetime;
        let sb = b.data.start_datetime;
        sa.secs < sb.secs || (sa.secs == sb.secs && sa.nanos <= sb.nanos)
    }
}

/// The runs in listing order: running first, then by start time.
pub fn listing_order(runs: Vec<RunEntry>) -> (r: Vec<RunEntry>)
    ensures
        r@.to_multiset() == runs@.to_multiset(),
        in_listing_order(r@),
{
    broadcast use vstd::seq_lib::to_multiset_insert, vstd::seq_lib::to_multiset_build,
        vstd::seq_lib::group_to_multiset_ensures, vstd::multiset::group_multiset_axioms;
    let ghost all = runs@;
    let mut rest = runs;
    let mut out: Vec<RunEntry> = Vec::new();
    assert(out@.to_multiset() =~= Multiset::empty());
    assert(out@.to_multiset().add(rest@.to_multiset()) =~= all.to_multiset());
    while rest.len() > 0
        invariant
            out@.to_multiset().add(rest@.to_multiset()) == all.to_multiset(),
            in_listing_order(out@),
        decreases rest@.len(),
    {
        let ghost before = rest@;
        let x = rest.pop().unwrap();
        assert(before =~= rest@.push(x));
        proof {
            vstd::seq_lib::to_multiset_build(rest@, x);
        }
        assert(before.to_multiset() == rest@.to_multiset().insert(x));
        let mut p: usize = 0;
        while p < out.len() && before_or_with(&out[p], &x)
            invariant
                p <= out@.len(),
                forall|j: int| 0 <= j < p ==> listed_before_or_with(#[trigger] out@[j], x),
            decreases out@.len() - p,
        {
            p = p + 1;
        }
        let ghost old_out = out@;
        out.insert(p, x);
        assert(out@ == old_out.insert(p as int, x));
        proof {
            vstd::seq_lib::to_multiset_insert(old_out, p as int, x);
        }
        assert(out@.to_multiset() == old_out.to_multiset().insert(x));
        assert(out@.to_multiset().add(rest@.to_multiset()) =~= old_out.to_multiset().add(before.to_multiset()));
        assert forall|i: int, j: int| 0 <= i < j < out@.len() implies listed_before_or_with(
            #[trigger] out@[i],
            #[trigger] out@[j],
        ) by {
            if j < p {
            } else if i < p && j == p {
            } else if i < p && j > p {
                assert(listed_before_or_with(old_out[i], x));
                if p < old_out.len() {
                    assert(!listed_before_or_with(old_out[p as int], x));
                }
            } else if i == p {
                assert(!listed_before_or_with(old_out[p as int], x));
                assert(listed_before_or_with(old_out[p as int], old_out[j - 1]) || p == j - 1);
            } else {
            }
        }
    }
    assert(rest@.to_multiset() =~= Multiset::empty());
    assert(out@.to_multiset() =~= out@.to_multiset().add(rest@.to_multiset()));
    out
}

} // verus!
