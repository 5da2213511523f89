use vstd::prelude::*;
use crate::scan::{kind_of, plan_of, scan_prefix, Entry, Kind, ScanState, Step};

verus! {

/// The positions handed to the remover by a list of steps, in order.
pub open spec fn removals(s: Seq<Step>) -> Seq<usize>
    decreases s.len(),
{
    if s.len() == 0 {
        Seq::empty()
    } else {
        let r = removals(s.drop_last());
        match s.last() {
            Step::Remove(i) => r.push(i),
            Step::Recurse(_) => r,
        }
    }
}

/// Position of the first of the first `n` entries whose name is of kind `k`.
pub open spec fn first_of(es: Seq<Entry>, n: nat, k: Kind) -> Option<int>
    decreases n,
{
    if n == 0 || n > es.len() {
        None
    } else {
        match first_of(es, (n - 1) as nat, k) {
            Some(j) => Some(j),
            None => if kind_of(es[n - 1].name@) == k {
                Some(n - 1)
            } else {
                None
            },
        }
    }
}

proof fn lemma_first_of(es: Seq<Entry>, n: nat, k: Kind)
    requires
        n <= es.len(),
    ensures
        match first_of(es, n, k) {
            Some(j) => 0 <= j < n && kind_of(es[j].name@) == k && forall|l: int|
                0 <= l < j ==> kind_of(#[trigger] es[l].name@) != k,
            None => forall|l: int| 0 <= l < n ==> kind_of(#[trigger] es[l].name@) != k,
        },
    decreases n,
{
    if n > 0 {
        lemma_first_of(es, (n - 1) as nat, k);
    }
}

spec fn pairing_state(m: Option<int>, b: Option<int>) -> ScanState {
    match (m, b) {
        (None, None) => ScanState::Open,
        (Some(_), None) => ScanState::MarkerSeen,
        (None, Some(j)) => ScanState::Pending(j as usize),
        (Some(_), Some(_)) => ScanState::Resolved,
    }
}

spec fn paired_removals(m: Option<int>, b: Option<int>) -> Seq<usize> {
    if m.is_some() && b.is_some() {
        seq![b.unwrap() as usize]
    } else {
        Seq::empty()
    }
}

proof fn lemma_scan_prefix(es: Seq<Entry>, n: nat)
    requires
        n <= es.len(),
        es.len() <= usize::MAX,
    ensures
        scan_prefix(es, n).0 == pairing_state(
            first_of(es, n, Kind::Marker),
            first_of(es, n, Kind::BuildDir),
        ),
        removals(scan_prefix(es, n).1) == paired_removals(
            first_of(es, n, Kind::Marker),
            first_of(es, n, Kind::BuildDir),
        ),
        forall|j: usize| #[trigger]
            scan_prefix(es, n).1.contains(Step::Recurse(j)) <==> (j < n && kind_of(
                es[j as int].name@,
            ) == Kind::Other && es[j as int].is_dir),
        forall|j: usize| #[trigger]
            scan_prefix(es, n).1.contains(Step::Remove(j)) ==> (j < n && kind_of(
                es[j as int].name@,
            ) == Kind::BuildDir),
    decreases n,
{
    if n > 0 {
        lemma_scan_prefix(es, (n - 1) as nat);
        lemma_first_of(es, (n - 1) as nat, Kind::Marker);
        lemma_first_of(es, (n - 1) as nat, Kind::BuildDir);
        let (st0, steps0) = scan_prefix(es, (n - 1) as nat);
        let e = es[n - 1];
        let (st1, s) = crate::scan::next(st0, kind_of(e.name@), e.is_dir, (n - 1) as usize);
        match s {
            Some(x) => {
                assert(steps0.push(x).drop_last() =~= steps0);
                assert forall|y: Step| #[trigger] steps0.push(x).contains(y) <==> (steps0.contains(
                    y) || y == x) by {
                    if y == x {
                        assert(steps0.push(x)[steps0.len() as int] == x);
                    }
                    if steps0.contains(y) {
                        let w = choose|w: int| 0 <= w < steps0.len() && steps0[w] == y;
                        assert(steps0.push(x)[w] == y);
                    }
                }
            },
            None => {},
        }
    }
}

/// Whichever order the marker and a build-output directory come in within
/// one listing, the scan of that directory removes exactly one entry: the
/// first build-output directory of the listing.
pub proof fn lemma_pairing_order_independent(es: Seq<Entry>, m: int, b: int)
    requires
        es.len() <= usize::MAX,
        0 <= m < es.len(),
        0 <= b < es.len(),
        kind_of(es[m].name@) == Kind::Marker,
        kind_of(es[b].name@) == Kind::BuildDir,
    ensures
        removals(plan_of(es)).len() == 1,
        ({
            let r = removals(plan_of(es))[0] as int;
            &&& r <= b
            &&& kind_of(es[r].name@) == Kind::BuildDir
            &&& forall|l: int| 0 <= l < r ==> kind_of(#[trigger] es[l].name@) != Kind::BuildDir
        }),
{
    lemma_scan_prefix(es, es.len());
    lemma_first_of(es, es.len(), Kind::Marker);
    lemma_first_of(es, es.len(), Kind::BuildDir);
}

/// A listing that holds the marker but no build-output directory removes
/// nothing, and every other directory in it is still scanned.
pub proof fn lemma_marker_alone(es: Seq<Entry>, m: int)
    requires
        es.len() <= usize::MAX,
        0 <= m < es.len(),
        kind_of(es[m].name@) == Kind::Marker,
        forall|l: int| 0 <= l < es.len() ==> kind_of(#[trigger] es[l].name@) != Kind::BuildDir,
    ensures
        removals(plan_of(es)) == Seq::<usize>::empty(),
        forall|j: usize|
            j < es.len() && kind_of(es[j as int].name@) == Kind::Other && es[j as int].is_dir
                ==> #[trigger] plan_of(es).contains(Step::Recurse(j)),
{
    lemma_scan_prefix(es, es.len());
    lemma_first_of(es, es.len(), Kind::BuildDir);
}

/// An entry handed to the remover is never scanned in turn: its contents
/// are not looked at.
pub proof fn lemma_removed_not_scanned(es: Seq<Entry>, j: usize)
    requires
        es.len() <= usize::MAX,
        plan_of(es).contains(Step::Remove(j)),
    ensures
        !plan_of(es).contains(Step::Recurse(j)),
{
    lemma_scan_prefix(es, es.len());
}

} // verus!
