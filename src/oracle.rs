use vstd::prelude::*;

use crate::filler_item::{FillerItem, LogicToken};
use crate::logic::{eval, lemma_eval_monotone, marked, Pred};

verus! {

/// The logic token of what location `l` holds, if it holds anything.
pub open spec fn token_at(placement: Seq<Option<FillerItem>>, l: int) -> Option<LogicToken> {
    match placement[l] {
        Some(x) => Some(x.logic()),
        None => None,
    }
}

/// The ownership set: the assumed tokens and the tokens held by the locations in
/// `reached`.
pub open spec fn owned_set(
    placement: Seq<Option<FillerItem>>,
    assumed: Set<LogicToken>,
    reached: Set<int>,
) -> Set<LogicToken> {
    Set::new(
        |t: LogicToken|
            assumed.contains(t) || exists|l: int|
                0 <= l < placement.len() && reached.contains(l) && #[trigger] token_at(placement, l)
                    == Some(t),
    )
}

/// Whether no location outside `s` has its requirement met by what `s` gives.
pub open spec fn is_closed(
    preds: Seq<Pred>,
    placement: Seq<Option<FillerItem>>,
    assumed: Set<LogicToken>,
    s: Set<int>,
) -> bool {
    forall|l: int|
        0 <= l < preds.len() && eval(#[trigger] preds[l], owned_set(placement, assumed, s), s)
            ==> s.contains(l)
}

/// The locations reachable under a placement with the assumed tokens owned: those that
/// every closed set of locations holds. This is the least closed set, the fixed point of
/// repeated predicate evaluation.
pub open spec fn reachable(
    preds: Seq<Pred>,
    placement: Seq<Option<FillerItem>>,
    assumed: Set<LogicToken>,
) -> Set<int> {
    Set::new(
        |l: int|
            0 <= l < preds.len() && forall|s: Set<int>| #[trigger]
                is_closed(preds, placement, assumed, s) ==> s.contains(l),
    )
}

/// The number of flags that are set.
pub open spec fn num_true(flags: Seq<bool>) -> nat
    decreases flags.len(),
{
    if flags.len() == 0 {
        0
    } else {
        num_true(flags.drop_last()) + if flags.last() {
            1nat
        } else {
            0nat
        }
    }
}

/// At most every flag is set.
pub proof fn lemma_num_true_bound(flags: Seq<bool>)
    ensures
        num_true(flags) <= flags.len(),
    decreases flags.len(),
{
    if flags.len() > 0 {
        lemma_num_true_bound(flags.drop_last());
    }
}

/// Setting a flag that was clear counts one more.
pub proof fn lemma_num_true_set(flags: Seq<bool>, i: int)
    requires
        0 <= i < flags.len(),
        !flags[i],
    ensures
        num_true(flags.update(i, true)) == num_true(flags) + 1,
    decreases flags.len(),
{
    let u = flags.update(i, true);
    if i == flags.len() - 1 {
        assert(u.drop_last() =~= flags.drop_last());
    } else {
        assert(u.drop_last() =~= flags.drop_last().update(i, true));
        lemma_num_true_set(flags.drop_last(), i);
    }
}

/// More assumed tokens and more reached locations give a larger ownership set.
pub proof fn lemma_owned_monotone(
    placement: Seq<Option<FillerItem>>,
    assumed1: Set<LogicToken>,
    reached1: Set<int>,
    assumed2: Set<LogicToken>,
    reached2: Set<int>,
)
    requires
        assumed1.subset_of(assumed2),
        reached1.subset_of(reached2),
    ensures
        owned_set(placement, assumed1, reached1).subset_of(owned_set(placement, assumed2, reached2)),
{
    assert forall|t: LogicToken| #[trigger]
        owned_set(placement, assumed1, reached1).contains(t) implies owned_set(
            placement,
            assumed2,
            reached2,
        ).contains(t) by {
        if !assumed1.contains(t) {
            let l = choose|l: int|
                0 <= l < placement.len() && reached1.contains(l) && #[trigger] token_at(placement, l)
                    == Some(t);
            assert(reached2.contains(l));
        }
    }
}

/// The reachable set is itself closed.
pub proof fn lemma_reachable_closed(
    preds: Seq<Pred>,
    placement: Seq<Option<FillerItem>>,
    assumed: Set<LogicToken>,
)
    ensures
        is_closed(preds, placement, assumed, reachable(preds, placement, assumed)),
{
    let r = reachable(preds, placement, assumed);
    assert forall|l: int|
        0 <= l < preds.len() && eval(#[trigger] preds[l], owned_set(placement, assumed, r), r)
            implies r.contains(l) by {
        assert forall|s: Set<int>| #[trigger] is_closed(preds, placement, assumed, s) implies s.contains(
            l,
        ) by {
            assert(r.subset_of(s));
            lemma_owned_monotone(placement, assumed, r, assumed, s);
            lemma_eval_monotone(preds[l], owned_set(placement, assumed, r), r, owned_set(placement, assumed, s), s);
        }
    }
}

/// A closed set holds every reachable location.
pub proof fn lemma_reachable_least(
    preds: Seq<Pred>,
    placement: Seq<Option<FillerItem>>,
    assumed: Set<LogicToken>,
    s: Set<int>,
)
    requires
        is_closed(preds, placement, assumed, s),
    ensures
        reachable(preds, placement, assumed).subset_of(s),
{
}

/// Whenever every ownership set under the first placement and assumed set is within the
/// one under the second, every location reachable under the first is reachable under the
/// second.
pub proof fn lemma_reachable_grows(
    preds: Seq<Pred>,
    placement1: Seq<Option<FillerItem>>,
    assumed1: Set<LogicToken>,
    placement2: Seq<Option<FillerItem>>,
    assumed2: Set<LogicToken>,
)
    requires
        forall|s: Set<int>| #[trigger]
            owned_set(placement1, assumed1, s).subset_of(owned_set(placement2, assumed2, s)),
    ensures
        reachable(preds, placement1, assumed1).subset_of(reachable(preds, placement2, assumed2)),
{
    let r2 = reachable(preds, placement2, assumed2);
    lemma_reachable_closed(preds, placement2, assumed2);
    assert forall|l: int|
        0 <= l < preds.len() && eval(#[trigger] preds[l], owned_set(placement1, assumed1, r2), r2)
            implies r2.contains(l) by {
        assert(owned_set(placement1, assumed1, r2).subset_of(owned_set(placement2, assumed2, r2)));
        lemma_eval_monotone(
            preds[l],
            owned_set(placement1, assumed1, r2),
            r2,
            owned_set(placement2, assumed2, r2),
            r2,
        );
    }
    lemma_reachable_least(preds, placement1, assumed1, r2);
}

/// Monotonicity: assuming more tokens never shrinks the reachable locations, nor the
/// ownership set that the oracle ends with.
pub proof fn lemma_oracle_monotone(
    preds: Seq<Pred>,
    placement: Seq<Option<FillerItem>>,
    assumed_a: Set<LogicToken>,
    assumed_b: Set<LogicToken>,
)
    requires
        assumed_a.subset_of(assumed_b),
    ensures
        reachable(preds, placement, assumed_a).subset_of(reachable(preds, placement, assumed_b)),
        owned_set(placement, assumed_a, reachable(preds, placement, assumed_a)).subset_of(
            owned_set(placement, assumed_b, reachable(preds, placement, assumed_b)),
        ),
{
    assert forall|s: Set<int>| #[trigger]
        owned_set(placement, assumed_a, s).subset_of(owned_set(placement, assumed_b, s)) by {
        lemma_owned_monotone(placement, assumed_a, s, assumed_b, s);
    }
    lemma_reachable_grows(preds, placement, assumed_a, placement, assumed_b);
    lemma_owned_monotone(
        placement,
        assumed_a,
        reachable(preds, placement, assumed_a),
        assumed_b,
        reachable(preds, placement, assumed_b),
    );
}

/// Idempotence of the closure: running the oracle again with its own ownership set as the
/// assumed set reaches the same locations and ends with the same ownership set.
pub proof fn lemma_oracle_idempotent(
    preds: Seq<Pred>,
    placement: Seq<Option<FillerItem>>,
    assumed: Set<LogicToken>,
)
    ensures
        ({
            let r = reachable(preds, placement, assumed);
            let o = owned_set(placement, assumed, r);
            &&& reachable(preds, placement, o) == r
            &&& owned_set(placement, o, reachable(preds, placement, o)) == o
        }),
{
    let r = reachable(preds, placement, assumed);
    let o = owned_set(placement, assumed, r);
    assert(assumed.subset_of(o));
    lemma_oracle_monotone(preds, placement, assumed, o);
    assert forall|t: LogicToken| #[trigger] owned_set(placement, o, r).contains(t) implies o.contains(t) by {
        if !o.contains(t) {
            let l = choose|l: int|
                0 <= l < placement.len() && r.contains(l) && #[trigger] token_at(placement, l)
                    == Some(t);
            assert(o.contains(t));
        }
    }
    lemma_owned_monotone(placement, assumed, r, o, r);
    assert(owned_set(placement, o, r) =~= o);
    lemma_reachable_closed(preds, placement, assumed);
    assert(is_closed(preds, placement, o, r));
    lemma_reachable_least(preds, placement, o, r);
    assert(reachable(preds, placement, o) =~= r);
}

/// Marks location `l` as reached and takes the token it holds, if any, into the owned
/// tokens.
pub(crate) fn visit(
    placement: &Vec<Option<FillerItem>>,
    l: usize,
    reached: &mut Vec<bool>,
    owned: &mut Vec<LogicToken>,
    Ghost(a): Ghost<Set<LogicToken>>,
)
    requires
        l < old(reached)@.len(),
        old(reached)@.len() == placement@.len(),
        old(owned)@.to_set() == owned_set(placement@, a, marked(old(reached)@)),
    ensures
        final(reached)@ == old(reached)@.update(l as int, true),
        final(owned)@.to_set() == owned_set(placement@, a, marked(final(reached)@)),
{
    let ghost pl = placement@;
    let ghost rs = marked(reached@);
    let ghost old_owned = owned@;
    reached.set(l, true);
    let ghost rs2 = marked(reached@);
    assert(rs2 =~= rs.insert(l as int));
    match placement[l] {
        Some(t) => {
            let lt = t.to_logic();
            owned.push(lt);
            proof {
                assert(token_at(pl, l as int) == Some(lt));
                assert forall|x: LogicToken|
                    owned@.to_set().contains(x) == owned_set(pl, a, rs2).contains(x) by {
                    if owned@.to_set().contains(x) {
                        let k = choose|k: int| 0 <= k < owned@.len() && owned@[k] == x;
                        if k < old_owned.len() {
                            assert(old_owned[k] == x);
                            assert(old_owned.to_set().contains(x));
                            lemma_owned_monotone(pl, a, rs, a, rs2);
                        } else {
                            assert(x == lt);
                            assert(0 <= l < pl.len() && rs2.contains(l as int) && token_at(pl, l as int)
                                == Some(x));
                        }
                    }
                    if owned_set(pl, a, rs2).contains(x) {
                        if a.contains(x) {
                            assert(owned_set(pl, a, rs).contains(x));
                        } else {
                            let m = choose|m: int|
                                0 <= m < pl.len() && rs2.contains(m) && #[trigger] token_at(pl, m)
                                    == Some(x);
                            if m != l {
                                assert(rs.contains(m));
                                assert(owned_set(pl, a, rs).contains(x));
                            }
                        }
                        if owned_set(pl, a, rs).contains(x) {
                            assert(old_owned.to_set().contains(x));
                            let k = choose|k: int| 0 <= k < old_owned.len() && old_owned[k] == x;
                            assert(owned@[k] == x);
                        } else {
                            assert(owned@[old_owned.len() as int] == x);
                        }
                        assert(owned@.to_set().contains(x));
                    }
                }
                assert(owned@.to_set() =~= owned_set(pl, a, rs2));
            }
        },
        None => {
            proof {
                assert(token_at(pl, l as int) == None::<LogicToken>);
                assert forall|x: LogicToken|
                    owned_set(pl, a, rs).contains(x) == owned_set(pl, a, rs2).contains(x) by {
                    lemma_owned_monotone(pl, a, rs, a, rs2);
                    if owned_set(pl, a, rs2).contains(x) && !a.contains(x) {
                        let m = choose|m: int|
                            0 <= m < pl.len() && rs2.contains(m) && #[trigger] token_at(pl, m)
                                == Some(x);
                        assert(m != l);
                        assert(rs.contains(m));
                    }
                }
                assert(owned_set(pl, a, rs) =~= owned_set(pl, a, rs2));
            }
        },
    }
}

/// What a run of the oracle found: the reachable locations and what they give.
pub struct Reach {
    pub reached: Vec<bool>,
    pub owned: Vec<LogicToken>,
}

/// The reachability oracle: starting from the assumed tokens, repeatedly marks every
/// location whose requirement holds and takes the token it holds, until a full pass
/// marks nothing.
pub fn reach(
    locations: &Vec<Pred>,
    placement: &Vec<Option<FillerItem>>,
    assumed: &Vec<LogicToken>,
) -> (r: Reach)
    requires
        placement.len() == locations.len(),
    ensures
        r.reached.len() == locations.len(),
        marked(r.reached@) == reachable(locations@, placement@, assumed@.to_set()),
        r.owned@.to_set() == owned_set(
            placement@,
            assumed@.to_set(),
            reachable(locations@, placement@, assumed@.to_set()),
        ),
{
    let n = locations.len();
    let ghost preds = locations@;
    let ghost pl = placement@;
    let ghost a = assumed@.to_set();
    let mut owned: Vec<LogicToken> = Vec::new();
    let mut i: usize = 0;
    while i < assumed.len()
        invariant
            i <= assumed.len(),
            owned@ == assumed@.take(i as int),
        decreases assumed.len() - i,
    {
        owned.push(assumed[i]);
        i += 1;
        assert(owned@ =~= assumed@.take(i as int));
    }
    assert(owned@ =~= assumed@);
    let mut reached: Vec<bool> = Vec::new();
    let mut i: usize = 0;
    while i < n
        invariant
            i <= n,
            reached@.len() == i,
            forall|j: int| 0 <= j < i ==> !reached@[j],
        decreases n - i,
    {
        reached.push(false);
        i += 1;
    }
    proof {
        assert(marked(reached@) =~= Set::empty());
        assert(owned_set(pl, a, marked(reached@)) =~= a);
        assert(num_true(reached@) == 0) by {
            lemma_none_true(reached@);
        }
    }
    let mut count: usize = 0;
    let mut changed = true;
    while changed
        invariant
            n == locations.len(),
            n == placement.len(),
            preds == locations@,
            pl == placement@,
            a == assumed@.to_set(),
            reached@.len() == n,
            count == num_true(reached@),
            owned@.to_set() == owned_set(pl, a, marked(reached@)),
            forall|s: Set<int>| #[trigger]
                is_closed(preds, pl, a, s) ==> marked(reached@).subset_of(s),
            !changed ==> is_closed(preds, pl, a, marked(reached@)),
        decreases n - count + if changed {
            1int
        } else {
            0int
        },
    {
        proof {
            lemma_num_true_bound(reached@);
        }
        let ghost start = reached@;
        let ghost start_count = count;
        changed = false;
        let mut l: usize = 0;
        while l < n
            invariant
                n == locations.len(),
                n == placement.len(),
                preds == locations@,
                pl == placement@,
                a == assumed@.to_set(),
                l <= n,
                reached@.len() == n,
                count == num_true(reached@),
                count <= n,
                owned@.to_set() == owned_set(pl, a, marked(reached@)),
                forall|s: Set<int>| #[trigger]
                    is_closed(preds, pl, a, s) ==> marked(reached@).subset_of(s),
                !changed ==> reached@ == start,
                changed ==> count > start_count,
                count >= start_count,
                !changed ==> forall|j: int|
                    0 <= j < l ==> reached@[j] || !eval(
                        #[trigger] preds[j],
                        owned_set(pl, a, marked(reached@)),
                        marked(reached@),
                    ),
            decreases n - l,
        {
            if !reached[l] && locations[l].evaluate(&owned, &reached) {
                let ghost before = reached@;
                let ghost rs = marked(before);
                proof {
                    assert forall|s: Set<int>| #[trigger] is_closed(preds, pl, a, s) implies marked(
                        before.update(l as int, true),
                    ).subset_of(s) by {
                        assert(rs.subset_of(s));
                        lemma_owned_monotone(pl, a, rs, a, s);
                        lemma_eval_monotone(preds[l as int], owned_set(pl, a, rs), rs, owned_set(pl, a, s), s);
                        assert(s.contains(l as int));
                    }
                    lemma_num_true_set(before, l as int);
                    lemma_num_true_bound(before.update(l as int, true));
                }
                visit(placement, l, &mut reached, &mut owned, Ghost(a));
                count += 1;
                changed = true;
            }
            l += 1;
        }
        proof {
            if !changed {
                assert forall|j: int|
                    0 <= j < preds.len() && eval(
                        #[trigger] preds[j],
                        owned_set(pl, a, marked(reached@)),
                        marked(reached@),
                    ) implies marked(reached@).contains(j) by {
                    assert(reached@[j]);
                }
            }
        }
    }
    proof {
        let r = reachable(preds, pl, a);
        let m = marked(reached@);
        lemma_reachable_closed(preds, pl, a);
        assert(m.subset_of(r)) by {
            assert forall|l: int| m.contains(l) implies r.contains(l) by {
                assert forall|s: Set<int>| #[trigger] is_closed(preds, pl, a, s) implies s.contains(l) by {
                    assert(m.subset_of(s));
                }
            }
        }
        lemma_reachable_least(preds, pl, a, m);
        assert(m =~= r);
    }
    Reach { reached, owned }
}

/// With no flag set, none is counted.
pub proof fn lemma_none_true(flags: Seq<bool>)
    requires
        forall|j: int| 0 <= j < flags.len() ==> !flags[j],
    ensures
        num_true(flags) == 0,
    decreases flags.len(),
{
    if flags.len() > 0 {
        lemma_none_true(flags.drop_last());
    }
}

} // verus!
