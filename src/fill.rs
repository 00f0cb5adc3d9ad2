use vstd::prelude::*;

use crate::filler_item::{FillerItem, LogicToken};
use crate::logic::{eval, lemma_eval_monotone, marked, Pred};
use crate::oracle::{lemma_reachable_grows, owned_set, reach, reachable, token_at};
use crate::rng::Rng;
use crate::settings::Settings;
use crate::world::{FillError, WorldGraph};

verus! {

/// All locations of a graph with `n` of them.
pub open spec fn all_locations(n: int) -> Set<int> {
    Set::new(|l: int| 0 <= l < n)
}

/// The logic tokens of the pool entries listed in `idx`.
pub open spec fn assumed_of(pool: Seq<FillerItem>, idx: Seq<usize>) -> Set<LogicToken> {
    idx.map_values(|u: usize| pool[u as int].logic()).to_set()
}

/// The logic tokens of the whole pool.
pub open spec fn pool_tokens(pool: Seq<FillerItem>) -> Set<LogicToken> {
    pool.map_values(|x: FillerItem| x.logic()).to_set()
}

/// `slots` records, for each pool entry, the location that holds it, if any: that location
/// does hold it, and no two entries share one.
pub open spec fn tracks(
    pool: Seq<FillerItem>,
    placement: Seq<Option<FillerItem>>,
    slots: Seq<Option<usize>>,
) -> bool {
    &&& slots.len() == pool.len()
    &&& forall|i: int|
        0 <= i < slots.len() && #[trigger] slots[i] is Some ==> {
            &&& slots[i]->Some_0 < placement.len()
            &&& placement[slots[i]->Some_0 as int] == Some(pool[i])
        }
    &&& forall|i: int, j: int|
        0 <= i < slots.len() && 0 <= j < slots.len() && #[trigger] slots[i] is Some && slots[i]
            == #[trigger] slots[j] ==> i == j
}

/// `unplaced` lists distinct pool entries that hold no location yet.
pub open spec fn pending(slots: Seq<Option<usize>>, unplaced: Seq<usize>) -> bool {
    &&& unplaced.no_duplicates()
    &&& forall|k: int|
        0 <= k < unplaced.len() ==> #[trigger] unplaced[k] < slots.len() && slots[unplaced[k] as int] is None
}

/// A finished placement: it keeps the fixed locations, puts every pool entry into exactly
/// one open location and fills every open location, and with nothing assumed it reaches
/// every location and satisfies the goal.
pub open spec fn complete(
    locations: Seq<Pred>,
    goal: Pred,
    fixed: Seq<Option<FillerItem>>,
    pool: Seq<FillerItem>,
    placement: Seq<Option<FillerItem>>,
    slots: Seq<usize>,
) -> bool {
    let n = locations.len() as int;
    &&& placement.len() == n
    &&& fixed.len() == n
    &&& forall|l: int| 0 <= l < n && fixed[l] is Some ==> #[trigger] placement[l] == fixed[l]
    &&& slots.len() == pool.len()
    &&& forall|i: int|
        0 <= i < slots.len() ==> {
            &&& #[trigger] slots[i] < n
            &&& fixed[slots[i] as int] is None
            &&& placement[slots[i] as int] == Some(pool[i])
        }
    &&& forall|i: int, j: int|
        0 <= i < slots.len() && 0 <= j < slots.len() && #[trigger] slots[i] == #[trigger] slots[j]
            ==> i == j
    &&& forall|l: int|
        0 <= l < n && #[trigger] fixed[l] is None ==> exists|i: int|
            0 <= i < slots.len() && #[trigger] slots[i] == l
    &&& reachable(locations, placement, Set::empty()) == all_locations(n)
    &&& eval(goal, owned_set(placement, Set::empty(), all_locations(n)), all_locations(n))
}

/// Whether any placement could finish: with every pool token assumed, the fixed
/// placement reaches every location and satisfies the goal.
pub open spec fn feasible(
    locations: Seq<Pred>,
    goal: Pred,
    fixed: Seq<Option<FillerItem>>,
    pool: Seq<FillerItem>,
) -> bool {
    let n = locations.len() as int;
    &&& reachable(locations, fixed, pool_tokens(pool)) == all_locations(n)
    &&& eval(goal, owned_set(fixed, pool_tokens(pool), all_locations(n)), all_locations(n))
}

/// A finished placement exists only where the configuration is feasible.
pub proof fn lemma_complete_feasible(
    locations: Seq<Pred>,
    goal: Pred,
    fixed: Seq<Option<FillerItem>>,
    pool: Seq<FillerItem>,
    placement: Seq<Option<FillerItem>>,
    slots: Seq<usize>,
)
    requires
        complete(locations, goal, fixed, pool, placement, slots),
    ensures
        feasible(locations, goal, fixed, pool),
{
    let n = locations.len() as int;
    let e = Set::<LogicToken>::empty();
    let pt = pool_tokens(pool);
    assert forall|s: Set<int>| #[trigger]
        owned_set(placement, e, s).subset_of(owned_set(fixed, pt, s)) by {
        assert forall|t: LogicToken| owned_set(placement, e, s).contains(t) implies owned_set(
            fixed,
            pt,
            s,
        ).contains(t) by {
            let l = choose|l: int|
                0 <= l < placement.len() && s.contains(l) && #[trigger] token_at(placement, l)
                    == Some(t);
            if fixed[l] is Some {
                assert(placement[l] == fixed[l]);
                assert(token_at(fixed, l) == Some(t));
            } else {
                let i = choose|i: int| 0 <= i < slots.len() && #[trigger] slots[i] == l;
                assert(placement[slots[i] as int] == Some(pool[i]));
                assert(pool.map_values(|x: FillerItem| x.logic())[i] == t);
                assert(pt.contains(t));
            }
        }
    }
    lemma_reachable_grows(locations, placement, e, fixed, pt);
    let r = reachable(locations, fixed, pt);
    assert(r =~= all_locations(n));
    assert(owned_set(placement, e, all_locations(n)).subset_of(owned_set(fixed, pt, all_locations(n))));
    lemma_eval_monotone(
        goal,
        owned_set(placement, e, all_locations(n)),
        all_locations(n),
        owned_set(fixed, pt, all_locations(n)),
        all_locations(n),
    );
}

/// A finished placement: what each location holds, and for each pool entry the location
/// that holds it.
pub struct Fill {
    pub placement: Vec<Option<FillerItem>>,
    pub slots: Vec<usize>,
}

/// The logic tokens of the listed pool entries.
fn tokens_of(pool: &Vec<FillerItem>, idx: &Vec<usize>) -> (r: Vec<LogicToken>)
    requires
        forall|k: int| 0 <= k < idx@.len() ==> #[trigger] idx@[k] < pool@.len(),
    ensures
        r@.to_set() == assumed_of(pool@, idx@),
{
    let mut r: Vec<LogicToken> = Vec::new();
    let mut k: usize = 0;
    while k < idx.len()
        invariant
            k <= idx@.len(),
            forall|k: int| 0 <= k < idx@.len() ==> #[trigger] idx@[k] < pool@.len(),
            r@ == idx@.take(k as int).map_values(|u: usize| pool@[u as int].logic()),
        decreases idx.len() - k,
    {
        r.push(pool[idx[k]].to_logic());
        k += 1;
        assert(r@ =~= idx@.take(k as int).map_values(|u: usize| pool@[u as int].logic()));
    }
    assert(idx@.take(k as int) =~= idx@);
    r
}

/// The open locations among those flagged in `among` (or among all, when `among` is
/// absent).
fn open_locations(placement: &Vec<Option<FillerItem>>, among: Option<&Vec<bool>>) -> (r: Vec<usize>)
    requires
        among matches Some(f) ==> f@.len() == placement@.len(),
    ensures
        forall|k: int|
            0 <= k < r@.len() ==> {
                &&& #[trigger] r@[k] < placement@.len()
                &&& placement@[r@[k] as int] is None
                &&& among matches Some(f) ==> f@[r@[k] as int]
            },
        forall|l: int|
            0 <= l < placement@.len() && placement@[l] is None && (among matches Some(f) ==> f@[l])
                ==> r@.contains(l as usize),
{
    let mut r: Vec<usize> = Vec::new();
    let mut l: usize = 0;
    while l < placement.len()
        invariant
            l <= placement@.len(),
            among matches Some(f) ==> f@.len() == placement@.len(),
            forall|k: int|
                0 <= k < r@.len() ==> {
                    &&& #[trigger] r@[k] < placement@.len()
                    &&& placement@[r@[k] as int] is None
                    &&& among matches Some(f) ==> f@[r@[k] as int]
                },
            forall|m: int|
                0 <= m < l && placement@[m] is None && (among matches Some(f) ==> f@[m])
                    ==> r@.contains(m as usize),
        decreases placement.len() - l,
    {
        let wanted = match among {
            Some(f) => f[l],
            None => true,
        };
        let ghost old_r = r@;
        if wanted && placement[l].is_none() {
            r.push(l);
            assert(r@[r@.len() - 1] == l);
        }
        assert forall|m: int|
            0 <= m <= l && placement@[m] is None && (among matches Some(f) ==> f@[m]) implies r@.contains(
            m as usize,
        ) by {
            if m < l {
                let k = choose|k: int| 0 <= k < old_r.len() && old_r[k] == m as usize;
                assert(r@[k] == m as usize);
            } else {
                assert(r@[r@.len() - 1] == l);
            }
        }
        l += 1;
    }
    r
}

/// Removing an entry keeps the others distinct.
proof fn lemma_remove_no_duplicates(s: Seq<usize>, k: int)
    requires
        s.no_duplicates(),
        0 <= k < s.len(),
    ensures
        s.remove(k).no_duplicates(),
        forall|j: int| 0 <= j < s.remove(k).len() ==> #[trigger] s.remove(k)[j] != s[k],
        forall|j: int| 0 <= j < s.remove(k).len() ==> s.contains(#[trigger] s.remove(k)[j]),
{
    let r = s.remove(k);
    assert forall|a: int, b: int| 0 <= a < r.len() && 0 <= b < r.len() && a != b implies r[a] != r[b] by {
        let a2 = if a < k { a } else { a + 1 };
        let b2 = if b < k { b } else { b + 1 };
        assert(r[a] == s[a2]);
        assert(r[b] == s[b2]);
    }
    assert forall|j: int| 0 <= j < r.len() implies #[trigger] r[j] != s[k] by {
        let j2 = if j < k { j } else { j + 1 };
        assert(r[j] == s[j2]);
    }
    assert forall|j: int| 0 <= j < r.len() implies s.contains(#[trigger] r[j]) by {
        let j2 = if j < k { j } else { j + 1 };
        assert(r[j] == s[j2]);
    }
}

/// One step of the assumed fill. Draws an unplaced progression entry, takes it out of the
/// unplaced list, and runs the oracle with the rest of the unplaced entries assumed. If a
/// location that the oracle reached is still open, the entry goes into one of them, drawn
/// at random, and the step returns the entry and the location. Otherwise nothing is
/// placed and it returns None: the attempt has run into a dead end.
pub fn assumed_fill_step(
    graph: &WorldGraph,
    pool: &Vec<FillerItem>,
    placement: &mut Vec<Option<FillerItem>>,
    unplaced: &mut Vec<usize>,
    slots: &mut Vec<Option<usize>>,
    rng: &mut Rng,
) -> (r: Option<(usize, usize)>)
    requires
        old(placement)@.len() == graph.locations@.len(),
        old(unplaced)@.len() > 0,
        tracks(pool@, old(placement)@, old(slots)@),
        pending(old(slots)@, old(unplaced)@),
    ensures
        final(placement)@.len() == old(placement)@.len(),
        tracks(pool@, final(placement)@, final(slots)@),
        pending(final(slots)@, final(unplaced)@),
        exists|k: int|
            0 <= k < old(unplaced)@.len() && final(unplaced)@ == old(unplaced)@.remove(k) && (r matches Some(
                p,
            ) ==> p.0 == old(unplaced)@[k]),
        r matches Some(p) ==> {
            let (i, l) = p;
            &&& i < pool@.len()
            &&& old(slots)@[i as int] is None
            &&& l < old(placement)@.len()
            &&& old(placement)@[l as int] is None
            &&& final(placement)@ == old(placement)@.update(l as int, Some(pool@[i as int]))
            &&& final(slots)@ == old(slots)@.update(i as int, Some(l))
            &&& reachable(graph.locations@, old(placement)@, assumed_of(pool@, final(unplaced)@)).contains(
                l as int,
            )
        },
        r is None ==> {
            &&& final(placement)@ == old(placement)@
            &&& final(slots)@ == old(slots)@
            &&& forall|l: int|
                #[trigger] reachable(
                    graph.locations@,
                    old(placement)@,
                    assumed_of(pool@, final(unplaced)@),
                ).contains(l) ==> old(placement)@[l] is Some
        },
{
    let ghost un0 = unplaced@;
    let ghost sl0 = slots@;
    let ghost pl0 = placement@;
    let k = rng.below(unplaced.len());
    let i = unplaced.remove(k);
    proof {
        lemma_remove_no_duplicates(un0, k as int);
    }
    let assumed = tokens_of(pool, unplaced);
    let found = reach(&graph.locations, placement, &assumed);
    let ghost rs = reachable(graph.locations@, pl0, assumed_of(pool@, unplaced@));
    let cands = open_locations(placement, Some(&found.reached));
    if cands.len() == 0 {
        proof {
            assert forall|l: int| #[trigger] rs.contains(l) implies pl0[l] is Some by {
                assert(marked(found.reached@).contains(l));
                if pl0[l] is None {
                    assert(cands@.contains(l as usize));
                }
            }
        }
        return None;
    }
    let c = rng.below(cands.len());
    let l = cands[c];
    assert(marked(found.reached@).contains(l as int));
    placement.set(l, Some(pool[i]));
    slots.set(i, Some(l));
    proof {
        lemma_place_tracks(pool@, pl0, sl0, i, l);
        let sl1 = slots@;
        assert forall|m: int| 0 <= m < unplaced@.len() implies #[trigger] unplaced@[m] < sl1.len()
            && sl1[unplaced@[m] as int] is None by {
            assert(unplaced@[m] != un0[k as int]);
            assert(un0.contains(unplaced@[m]));
            let m2 = choose|m2: int| 0 <= m2 < un0.len() && un0[m2] == unplaced@[m];
            assert(sl0[un0[m2] as int] is None);
        }
        assert(rs.contains(l as int));
    }
    Some((i, l))
}

/// Putting an unplaced entry into an open location keeps the bookkeeping.
proof fn lemma_place_tracks(
    pool: Seq<FillerItem>,
    pl0: Seq<Option<FillerItem>>,
    sl0: Seq<Option<usize>>,
    i: usize,
    l: usize,
)
    requires
        tracks(pool, pl0, sl0),
        0 <= i < sl0.len(),
        sl0[i as int] is None,
        0 <= l < pl0.len(),
        pl0[l as int] is None,
    ensures
        tracks(pool, pl0.update(l as int, Some(pool[i as int])), sl0.update(i as int, Some(l))),
{
    let pl1 = pl0.update(l as int, Some(pool[i as int]));
    let sl1 = sl0.update(i as int, Some(l));
    assert forall|j: int| 0 <= j < sl1.len() && #[trigger] sl1[j] is Some implies {
        &&& sl1[j]->Some_0 < pl1.len()
        &&& pl1[sl1[j]->Some_0 as int] == Some(pool[j])
    } by {
        if j != i {
            assert(sl0[j] is Some);
            if sl0[j]->Some_0 == l {
                assert(pl0[l as int] is Some);
            }
        }
    }
    assert forall|a: int, b: int|
        0 <= a < sl1.len() && 0 <= b < sl1.len() && #[trigger] sl1[a] is Some && sl1[a]
            == #[trigger] sl1[b] implies a == b by {
        if a != i && b != i {
            assert(sl0[a] == sl0[b]);
        } else if a == i && b != i {
            assert(sl0[b] == Some(l));
            assert(pl0[l as int] is Some);
        } else if b == i && a != i {
            assert(sl0[a] == Some(l));
            assert(pl0[l as int] is Some);
        }
    }
}

/// The placement keeps the fixed locations, entries sit only in open locations, and every
/// filled open location is recorded.
pub open spec fn keeps(
    fixed: Seq<Option<FillerItem>>,
    placement: Seq<Option<FillerItem>>,
    slots: Seq<Option<usize>>,
) -> bool {
    &&& placement.len() == fixed.len()
    &&& forall|l: int| 0 <= l < fixed.len() && fixed[l] is Some ==> #[trigger] placement[l] == fixed[l]
    &&& forall|i: int|
        0 <= i < slots.len() && #[trigger] slots[i] is Some ==> slots[i]->Some_0 < fixed.len()
            && fixed[slots[i]->Some_0 as int] is None
    &&& forall|l: int|
        0 <= l < fixed.len() && fixed[l] is None && #[trigger] placement[l] is Some ==> exists|i: int|
            0 <= i < slots.len() && #[trigger] slots[i] == Some(l as usize)
}

proof fn lemma_place_keeps(
    fixed: Seq<Option<FillerItem>>,
    pool: Seq<FillerItem>,
    pl0: Seq<Option<FillerItem>>,
    sl0: Seq<Option<usize>>,
    i: usize,
    l: usize,
)
    requires
        keeps(fixed, pl0, sl0),
        sl0.len() == pool.len(),
        0 <= i < sl0.len(),
        sl0[i as int] is None,
        0 <= l < pl0.len(),
        pl0[l as int] is None,
    ensures
        keeps(fixed, pl0.update(l as int, Some(pool[i as int])), sl0.update(i as int, Some(l))),
{
    let pl1 = pl0.update(l as int, Some(pool[i as int]));
    let sl1 = sl0.update(i as int, Some(l));
    assert(fixed[l as int] is None) by {
        if fixed[l as int] is Some {
            assert(pl0[l as int] == fixed[l as int]);
        }
    }
    assert forall|j: int| 0 <= j < sl1.len() && #[trigger] sl1[j] is Some implies sl1[j]->Some_0
        < fixed.len() && fixed[sl1[j]->Some_0 as int] is None by {
        if j != i {
            assert(sl0[j] is Some);
        }
    }
    assert forall|m: int|
        0 <= m < fixed.len() && fixed[m] is None && #[trigger] pl1[m] is Some implies exists|j: int|
            0 <= j < sl1.len() && #[trigger] sl1[j] == Some(m as usize) by {
        if m == l as int {
            assert(sl1[i as int] == Some(m as usize));
        } else {
            assert(pl0[m] is Some);
            let j = choose|j: int| 0 <= j < sl0.len() && #[trigger] sl0[j] == Some(m as usize);
            assert(sl1[j] == Some(m as usize));
        }
    }
}

/// The number of open entries.
pub open spec fn count_none<T>(s: Seq<Option<T>>) -> nat
    decreases s.len(),
{
    if s.len() == 0 {
        0
    } else {
        count_none(s.drop_last()) + if s.last() is None {
            1nat
        } else {
            0nat
        }
    }
}

proof fn lemma_count_none_fill<T>(s: Seq<Option<T>>, i: int, x: T)
    requires
        0 <= i < s.len(),
        s[i] is None,
    ensures
        count_none(s.update(i, Some(x))) + 1 == count_none(s),
    decreases s.len(),
{
    let u = s.update(i, Some(x));
    if i == s.len() - 1 {
        assert(u.drop_last() =~= s.drop_last());
    } else {
        assert(u.drop_last() =~= s.drop_last().update(i, Some(x)));
        lemma_count_none_fill(s.drop_last(), i, x);
    }
}

proof fn lemma_count_none_pos<T>(s: Seq<Option<T>>, i: int)
    requires
        0 <= i < s.len(),
        s[i] is None,
    ensures
        count_none(s) > 0,
    decreases s.len(),
{
    if i < s.len() - 1 {
        lemma_count_none_pos(s.drop_last(), i);
    }
}

proof fn lemma_count_none_all_some<T>(s: Seq<Option<T>>)
    requires
        forall|i: int| 0 <= i < s.len() ==> #[trigger] s[i] is Some,
    ensures
        count_none(s) == 0,
    decreases s.len(),
{
    if s.len() > 0 {
        lemma_count_none_all_some(s.drop_last());
    }
}

proof fn lemma_count_none_all_none<T>(s: Seq<Option<T>>)
    requires
        forall|i: int| 0 <= i < s.len() ==> #[trigger] s[i] is None,
    ensures
        count_none(s) == s.len(),
    decreases s.len(),
{
    if s.len() > 0 {
        lemma_count_none_all_none(s.drop_last());
    }
}

/// A configuration in which any placement finishes: with nothing placed from the pool
/// every location is reachable and the goal holds, and the pool exactly fills the open
/// locations.
pub open spec fn open_world(
    locations: Seq<Pred>,
    goal: Pred,
    fixed: Seq<Option<FillerItem>>,
    pool: Seq<FillerItem>,
) -> bool {
    let n = locations.len() as int;
    &&& fixed.len() == n
    &&& reachable(locations, fixed, Set::empty()) == all_locations(n)
    &&& eval(goal, owned_set(fixed, Set::empty(), all_locations(n)), all_locations(n))
    &&& count_none(fixed) == pool.len()
}

/// A placement that keeps the fixed locations reaches, with any tokens assumed, at least
/// what the fixed placement reaches with none.
proof fn lemma_extends_reach(
    preds: Seq<Pred>,
    fixed: Seq<Option<FillerItem>>,
    placement: Seq<Option<FillerItem>>,
    assumed: Set<LogicToken>,
)
    requires
        placement.len() == fixed.len(),
        forall|l: int| 0 <= l < fixed.len() && fixed[l] is Some ==> #[trigger] placement[l] == fixed[l],
    ensures
        reachable(preds, fixed, Set::empty()).subset_of(reachable(preds, placement, assumed)),
        forall|s: Set<int>| #[trigger]
            owned_set(fixed, Set::empty(), s).subset_of(owned_set(placement, assumed, s)),
{
    assert forall|s: Set<int>| #[trigger]
        owned_set(fixed, Set::empty(), s).subset_of(owned_set(placement, assumed, s)) by {
        assert forall|t: LogicToken| owned_set(fixed, Set::empty(), s).contains(t) implies owned_set(
            placement,
            assumed,
            s,
        ).contains(t) by {
            let l = choose|l: int|
                0 <= l < fixed.len() && s.contains(l) && #[trigger] token_at(fixed, l) == Some(t);
            assert(placement[l] == fixed[l]);
            assert(token_at(placement, l) == Some(t));
        }
    }
    lemma_reachable_grows(preds, fixed, Set::empty(), placement, assumed);
}

/// One attempt: the assumed fill of the progression entries, the filler pass, and the
/// final check. None when the attempt fails.
fn fill_attempt(
    graph: &WorldGraph,
    settings: &Settings,
    fixed: &Vec<Option<FillerItem>>,
    pool: &Vec<FillerItem>,
    rng: &mut Rng,
) -> (r: Option<Fill>)
    requires
        fixed@.len() == graph.locations@.len(),
    ensures
        r matches Some(f) ==> complete(
            graph.locations@,
            graph.goal,
            fixed@,
            pool@,
            f.placement@,
            f.slots@,
        ),
        open_world(graph.locations@, graph.goal, fixed@, pool@) ==> r is Some,
{
    let ghost c = open_world(graph.locations@, graph.goal, fixed@, pool@);
    let n = fixed.len();
    let mut placement: Vec<Option<FillerItem>> = Vec::new();
    let mut l: usize = 0;
    while l < n
        invariant
            n == fixed@.len(),
            l <= n,
            placement@ == fixed@.take(l as int),
        decreases n - l,
    {
        placement.push(fixed[l]);
        l += 1;
        assert(placement@ =~= fixed@.take(l as int));
    }
    assert(placement@ =~= fixed@);
    let mut slots: Vec<Option<usize>> = Vec::new();
    let mut unplaced: Vec<usize> = Vec::new();
    let mut i: usize = 0;
    while i < pool.len()
        invariant
            i <= pool@.len(),
            slots@.len() == i,
            forall|j: int| 0 <= j < i ==> #[trigger] slots@[j] is None,
            forall|k: int| 0 <= k < unplaced@.len() ==> #[trigger] unplaced@[k] < i,
            forall|a: int, b: int| 0 <= a < b < unplaced@.len() ==> unplaced@[a] < unplaced@[b],
        decreases pool.len() - i,
    {
        slots.push(None);
        if pool[i].include_in_sphere_search(settings) {
            unplaced.push(i);
        }
        i += 1;
    }
    proof {
        assert forall|a: int, b: int| 0 <= a < unplaced@.len() && 0 <= b < unplaced@.len() && a != b implies unplaced@[a] != unplaced@[b] by {
            if a < b {
                assert(unplaced@[a] < unplaced@[b]);
            } else {
                assert(unplaced@[b] < unplaced@[a]);
            }
        }
        assert(pending(slots@, unplaced@));
        assert(tracks(pool@, placement@, slots@));
        assert(keeps(fixed@, placement@, slots@));
        lemma_count_none_all_none(slots@);
    }
    while unplaced.len() > 0
        invariant
            n == fixed@.len(),
            n == graph.locations@.len(),
            placement@.len() == n,
            tracks(pool@, placement@, slots@),
            pending(slots@, unplaced@),
            keeps(fixed@, placement@, slots@),
            c == open_world(graph.locations@, graph.goal, fixed@, pool@),
            c ==> count_none(placement@) == count_none(slots@),
        decreases unplaced.len(),
    {
        let ghost pl0 = placement@;
        let ghost sl0 = slots@;
        proof {
            lemma_count_none_pos(sl0, unplaced@[0] as int);
        }
        match assumed_fill_step(graph, pool, &mut placement, &mut unplaced, &mut slots, rng) {
            Some((i, l)) => {
                proof {
                    lemma_place_keeps(fixed@, pool@, pl0, sl0, i, l);
                    lemma_count_none_fill(pl0, l as int, pool@[i as int]);
                    lemma_count_none_fill(sl0, i as int, l);
                }
            },
            None => {
                proof {
                    if c {
                        let a = assumed_of(pool@, unplaced@);
                        lemma_extends_reach(graph.locations@, fixed@, pl0, a);
                        assert forall|l: int| 0 <= l < n implies #[trigger] pl0[l] is Some by {
                            assert(all_locations(n as int).contains(l));
                            assert(reachable(graph.locations@, pl0, a).contains(l));
                        }
                        lemma_count_none_all_some(pl0);
                    }
                }
                return None;
            },
        }
    }
    let mut i: usize = 0;
    while i < pool.len()
        invariant
            n == fixed@.len(),
            n == graph.locations@.len(),
            placement@.len() == n,
            tracks(pool@, placement@, slots@),
            keeps(fixed@, placement@, slots@),
            i <= pool@.len(),
            forall|j: int| 0 <= j < i ==> #[trigger] slots@[j] is Some,
            c == open_world(graph.locations@, graph.goal, fixed@, pool@),
            c ==> count_none(placement@) == count_none(slots@),
        decreases pool.len() - i,
    {
        if slots[i].is_none() {
            let open = open_locations(&placement, None);
            if open.len() == 0 {
                proof {
                    if c {
                        lemma_count_none_pos(slots@, i as int);
                        assert forall|l: int| 0 <= l < n implies #[trigger] placement@[l] is Some by {
                            if placement@[l] is None {
                                assert(open@.contains(l as usize));
                            }
                        }
                        lemma_count_none_all_some(placement@);
                    }
                }
                return None;
            }
            let c = rng.below(open.len());
            let l = open[c];
            let ghost pl0 = placement@;
            let ghost sl0 = slots@;
            placement.set(l, Some(pool[i]));
            slots.set(i, Some(l));
            proof {
                lemma_place_tracks(pool@, pl0, sl0, i, l);
                lemma_place_keeps(fixed@, pool@, pl0, sl0, i, l);
                lemma_count_none_fill(pl0, l as int, pool@[i as int]);
                lemma_count_none_fill(sl0, i as int, l);
            }
        }
        i += 1;
    }
    proof {
        if c {
            lemma_count_none_all_some(slots@);
            assert forall|l: int| 0 <= l < n implies #[trigger] placement@[l] is Some by {
                if placement@[l] is None {
                    lemma_count_none_pos(placement@, l);
                }
            }
        }
    }
    let mut done: Vec<usize> = Vec::new();
    let mut i: usize = 0;
    while i < pool.len()
        invariant
            slots@.len() == pool@.len(),
            i <= pool@.len(),
            done@.len() == i,
            forall|j: int| 0 <= j < i ==> slots@[j] == Some(#[trigger] done@[j]),
            forall|j: int| 0 <= j < slots@.len() ==> #[trigger] slots@[j] is Some,
        decreases pool.len() - i,
    {
        match slots[i] {
            Some(l) => done.push(l),
            None => {
                return None;
            },
        }
        i += 1;
    }
    let mut l: usize = 0;
    while l < n
        invariant
            placement@.len() == n,
            l <= n,
            forall|m: int| 0 <= m < l ==> #[trigger] placement@[m] is Some,
            c == open_world(graph.locations@, graph.goal, fixed@, pool@),
            c ==> forall|m: int| 0 <= m < n ==> #[trigger] placement@[m] is Some,
        decreases n - l,
    {
        if placement[l].is_none() {
            return None;
        }
        l += 1;
    }
    let nothing: Vec<LogicToken> = Vec::new();
    let found = reach(&graph.locations, &placement, &nothing);
    proof {
        assert(nothing@.to_set() =~= Set::<LogicToken>::empty());
        if c {
            lemma_extends_reach(graph.locations@, fixed@, placement@, Set::empty());
            let all = all_locations(n as int);
            assert(reachable(graph.locations@, placement@, Set::empty()) =~= all);
            assert forall|m: int| 0 <= m < n implies #[trigger] found.reached@[m] by {
                assert(marked(found.reached@).contains(m));
            }
            lemma_eval_monotone(
                graph.goal,
                owned_set(fixed@, Set::empty(), all),
                all,
                owned_set(placement@, Set::empty(), all),
                all,
            );
            assert(marked(found.reached@) =~= all);
        }
    }
    let mut l: usize = 0;
    while l < n
        invariant
            found.reached@.len() == n,
            l <= n,
            forall|m: int| 0 <= m < l ==> #[trigger] found.reached@[m],
            c == open_world(graph.locations@, graph.goal, fixed@, pool@),
            c ==> forall|m: int| 0 <= m < n ==> #[trigger] found.reached@[m],
        decreases n - l,
    {
        if !found.reached[l] {
            return None;
        }
        l += 1;
    }
    if !graph.goal.evaluate(&found.owned, &found.reached) {
        return None;
    }
    proof {
        let all = all_locations(n as int);
        assert(nothing@.to_set() =~= Set::<LogicToken>::empty());
        assert(marked(found.reached@) =~= all);
        assert forall|a: int, b: int|
            0 <= a < done@.len() && 0 <= b < done@.len() && #[trigger] done@[a] == #[trigger] done@[b]
                implies a == b by {
            assert(slots@[a] == slots@[b]);
        }
        assert forall|m: int| 0 <= m < n && #[trigger] fixed@[m] is None implies exists|j: int|
            0 <= j < done@.len() && #[trigger] done@[j] == m by {
            assert(placement@[m] is Some);
            let j = choose|j: int| 0 <= j < slots@.len() && #[trigger] slots@[j] == Some(m as usize);
            assert(done@[j] == m);
        }
        assert forall|j: int| 0 <= j < done@.len() implies {
            &&& #[trigger] done@[j] < n
            &&& fixed@[done@[j] as int] is None
            &&& placement@[done@[j] as int] == Some(pool@[j])
        } by {
            assert(slots@[j] is Some);
        }
    }
    Some(Fill { placement, slots: done })
}

/// The fill engine. Runs up to `max_attempts` attempts of the assumed fill, each with the
/// next draws of a generator seeded with `seed`, and returns the first placement that
/// finishes. Fails with a construction error when the graph refers to a location that
/// does not exist or `fixed` does not cover the locations, and with an infeasible
/// configuration once every attempt has failed.
pub fn fill(
    graph: &WorldGraph,
    settings: &Settings,
    fixed: &Vec<Option<FillerItem>>,
    pool: &Vec<FillerItem>,
    seed: u64,
    max_attempts: u32,
) -> (r: Result<Fill, FillError>)
    ensures
        (r == Err::<Fill, FillError>(FillError::Construction)) <==> (fixed@.len()
            != graph.locations@.len() || !graph.well_formed()),
        r matches Err(FillError::Infeasible { attempts }) ==> attempts == max_attempts,
        r is Ok ==> max_attempts > 0,
        r matches Ok(f) ==> complete(graph.locations@, graph.goal, fixed@, pool@, f.placement@, f.slots@),
        fixed@.len() == graph.locations@.len() && graph.well_formed() && !feasible(
            graph.locations@,
            graph.goal,
            fixed@,
            pool@,
        ) ==> r == Err::<Fill, FillError>(FillError::Infeasible { attempts: max_attempts }),
        graph.well_formed() && max_attempts > 0 && open_world(graph.locations@, graph.goal, fixed@, pool@)
            ==> r is Ok,
{
    if fixed.len() != graph.locations.len() || !graph.check_well_formed() {
        return Err(FillError::Construction);
    }
    let mut rng = Rng::new(seed);
    let mut attempt: u32 = 0;
    while attempt < max_attempts
        invariant
            fixed@.len() == graph.locations@.len(),
            graph.well_formed(),
            attempt > 0 ==> !open_world(graph.locations@, graph.goal, fixed@, pool@),
        decreases max_attempts - attempt,
    {
        match fill_attempt(graph, settings, fixed, pool, &mut rng) {
            Some(f) => {
                proof {
                    lemma_complete_feasible(graph.locations@, graph.goal, fixed@, pool@, f.placement@, f.slots@);
                }
                return Ok(f);
            },
            None => {},
        }
        attempt += 1;
    }
    Err(FillError::Infeasible { attempts: max_attempts })
}

} // verus!
