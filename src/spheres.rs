use vstd::prelude::*;

use crate::filler_item::{FillerItem, LogicToken};
use crate::logic::{eval, marked, Pred};
use crate::oracle::{
    lemma_none_true, lemma_num_true_bound, lemma_num_true_set, num_true, owned_set, token_at, visit,
};

verus! {

/// The locations reached within `k` passes of the oracle with nothing assumed, where each
/// pass evaluates every requirement against what the previous passes gave.
pub open spec fn sphere_round(
    preds: Seq<Pred>,
    placement: Seq<Option<FillerItem>>,
    k: nat,
) -> Set<int>
    decreases k,
{
    if k == 0 {
        Set::empty()
    } else {
        let prev = sphere_round(preds, placement, (k - 1) as nat);
        prev.union(
            Set::new(
                |l: int|
                    0 <= l < preds.len() && eval(
                        preds[l],
                        owned_set(placement, Set::empty(), prev),
                        prev,
                    ),
            ),
        )
    }
}

/// Location `l` is first reached in pass `s`: its sphere is `s`.
pub open spec fn has_sphere(preds: Seq<Pred>, placement: Seq<Option<FillerItem>>, l: int, s: nat) -> bool {
    &&& sphere_round(preds, placement, s + 1).contains(l)
    &&& !sphere_round(preds, placement, s).contains(l)
}

/// Every way of meeting `p` owns the token `t`.
pub open spec fn needs_token(p: Pred, t: LogicToken) -> bool {
    forall|o: Set<LogicToken>, r: Set<int>| #[trigger] eval(p, o, r) ==> o.contains(t)
}

/// Every way of meeting `p` has location `m` reached.
pub open spec fn needs_location(p: Pred, m: int) -> bool {
    forall|o: Set<LogicToken>, r: Set<int>| #[trigger] eval(p, o, r) ==> r.contains(m)
}

proof fn lemma_rounds_grow(preds: Seq<Pred>, placement: Seq<Option<FillerItem>>, j: nat, k: nat)
    requires
        j <= k,
    ensures
        sphere_round(preds, placement, j).subset_of(sphere_round(preds, placement, k)),
    decreases k - j,
{
    if j < k {
        lemma_rounds_grow(preds, placement, j, (k - 1) as nat);
    }
}

proof fn lemma_rounds_settle(preds: Seq<Pred>, placement: Seq<Option<FillerItem>>, k: nat, m: nat)
    requires
        k <= m,
        sphere_round(preds, placement, k + 1) == sphere_round(preds, placement, k),
    ensures
        sphere_round(preds, placement, m) == sphere_round(preds, placement, k),
    decreases m - k,
{
    if k < m {
        lemma_rounds_settle(preds, placement, k, (m - 1) as nat);
    }
}

/// A location reached within `k` passes has a sphere below `k`.
proof fn lemma_sphere_below(preds: Seq<Pred>, placement: Seq<Option<FillerItem>>, l: int, k: nat) -> (s: nat)
    requires
        sphere_round(preds, placement, k).contains(l),
    ensures
        s < k,
        has_sphere(preds, placement, l, s),
    decreases k,
{
    let prev = sphere_round(preds, placement, (k - 1) as nat);
    if prev.contains(l) {
        lemma_sphere_below(preds, placement, l, (k - 1) as nat)
    } else {
        (k - 1) as nat
    }
}

/// Sphere order: when a location's requirement needs a token, some location holding that
/// token has a strictly smaller sphere.
pub proof fn lemma_sphere_order_token(
    preds: Seq<Pred>,
    placement: Seq<Option<FillerItem>>,
    l: int,
    s: nat,
    t: LogicToken,
)
    requires
        0 <= l < preds.len(),
        has_sphere(preds, placement, l, s),
        needs_token(preds[l], t),
    ensures
        exists|m: int, s2: nat|
            0 <= m < placement.len() && token_at(placement, m) == Some(t) && s2 < s && #[trigger] has_sphere(
                preds,
                placement,
                m,
                s2,
            ),
{
    let prev = sphere_round(preds, placement, s);
    let o = owned_set(placement, Set::empty(), prev);
    assert(eval(preds[l], o, prev));
    assert(o.contains(t));
    let m = choose|m: int| 0 <= m < placement.len() && prev.contains(m) && #[trigger] token_at(placement, m) == Some(t);
    let s2 = lemma_sphere_below(preds, placement, m, s);
    assert(has_sphere(preds, placement, m, s2));
}

/// Sphere order: when a location's requirement needs another location reached, that
/// location has a strictly smaller sphere.
pub proof fn lemma_sphere_order_location(
    preds: Seq<Pred>,
    placement: Seq<Option<FillerItem>>,
    l: int,
    s: nat,
    m: int,
)
    requires
        0 <= l < preds.len(),
        has_sphere(preds, placement, l, s),
        needs_location(preds[l], m),
    ensures
        exists|s2: nat| s2 < s && #[trigger] has_sphere(preds, placement, m, s2),
{
    let prev = sphere_round(preds, placement, s);
    let o = owned_set(placement, Set::empty(), prev);
    assert(eval(preds[l], o, prev));
    assert(prev.contains(m));
    let s2 = lemma_sphere_below(preds, placement, m, s);
    assert(has_sphere(preds, placement, m, s2));
}

/// The sphere classifier: tags every location with the pass in which the oracle, with
/// nothing assumed, first reaches it. Locations never reached get no tag.
pub fn classify_spheres(
    locations: &Vec<Pred>,
    placement: &Vec<Option<FillerItem>>,
) -> (r: Vec<Option<usize>>)
    requires
        placement@.len() == locations@.len(),
    ensures
        r@.len() == locations@.len(),
        forall|l: int|
            0 <= l < r@.len() ==> match #[trigger] r@[l] {
                Some(s) => has_sphere(locations@, placement@, l, s as nat),
                None => forall|k: nat| !(#[trigger] sphere_round(locations@, placement@, k)).contains(l),
            },
{
    let n = locations.len();
    let ghost preds = locations@;
    let ghost pl = placement@;
    let ghost e = Set::<LogicToken>::empty();
    let mut reached: Vec<bool> = Vec::new();
    let mut spheres: Vec<Option<usize>> = Vec::new();
    let mut i: usize = 0;
    while i < n
        invariant
            i <= n,
            reached@.len() == i,
            spheres@.len() == i,
            forall|j: int| 0 <= j < i ==> !reached@[j] && spheres@[j] is None,
        decreases n - i,
    {
        reached.push(false);
        spheres.push(None);
        i += 1;
    }
    let mut owned: Vec<LogicToken> = Vec::new();
    proof {
        assert(marked(reached@) =~= sphere_round(preds, pl, 0));
        assert(owned@.to_set() =~= owned_set(pl, e, marked(reached@)));
        assert(num_true(reached@) == 0) by {
            lemma_none_true(reached@);
        }
    }
    let mut count: usize = 0;
    let mut pass: usize = 0;
    let mut changed = true;
    while changed
        invariant
            n == locations@.len(),
            n == placement@.len(),
            preds == locations@,
            pl == placement@,
            e == Set::<LogicToken>::empty(),
            reached@.len() == n,
            spheres@.len() == n,
            count == num_true(reached@),
            count <= n,
            pass <= count,
            marked(reached@) == sphere_round(preds, pl, pass as nat),
            !changed ==> marked(reached@) == sphere_round(preds, pl, (pass + 1) as nat),
            owned@.to_set() == owned_set(pl, e, marked(reached@)),
            forall|l: int|
                0 <= l < n ==> match #[trigger] spheres@[l] {
                    Some(s) => s < pass && has_sphere(preds, pl, l, s as nat),
                    None => !reached@[l],
                },
        decreases n - count + if changed {
            1int
        } else {
            0int
        },
    {
        let ghost prev = marked(reached@);
        let ghost start_count = count;
        let mut newly: Vec<usize> = Vec::new();
        let mut l: usize = 0;
        while l < n
            invariant
                n == locations@.len(),
                preds == locations@,
                reached@.len() == n,
                marked(reached@) == prev,
                owned@.to_set() == owned_set(pl, e, prev),
                l <= n,
                forall|k: int| 0 <= k < newly@.len() ==> #[trigger] newly@[k] < l && !prev.contains(newly@[k] as int),
                forall|a: int, b: int| 0 <= a < b < newly@.len() ==> newly@[a] < newly@[b],
                forall|m: int|
                    0 <= m < l && !prev.contains(m) && eval(#[trigger] preds[m], owned_set(pl, e, prev), prev)
                        ==> newly@.contains(m as usize),
                forall|k: int|
                    0 <= k < newly@.len() ==> eval(preds[#[trigger] newly@[k] as int], owned_set(pl, e, prev), prev),
            decreases n - l,
        {
            let ghost old_newly = newly@;
            if !reached[l] && locations[l].evaluate(&owned, &reached) {
                newly.push(l);
            }
            proof {
                assert forall|m: int|
                    0 <= m <= l && !prev.contains(m) && eval(#[trigger] preds[m], owned_set(pl, e, prev), prev)
                        implies newly@.contains(m as usize) by {
                    if m < l {
                        let k = choose|k: int| 0 <= k < old_newly.len() && old_newly[k] == m as usize;
                        assert(newly@[k] == m as usize);
                    } else {
                        assert(!reached@[m]);
                        assert(newly@[newly@.len() - 1] == l);
                    }
                }
            }
            l += 1;
        }
        let ghost next = sphere_round(preds, pl, (pass + 1) as nat);
        proof {
            lemma_num_true_bound(reached@);
            assert forall|k: int| 0 <= k < newly@.len() implies next.contains(#[trigger] newly@[k] as int) by {
                assert(eval(preds[newly@[k] as int], owned_set(pl, e, prev), prev));
            }
        }
        let mut j: usize = 0;
        while j < newly.len()
            invariant
                n == locations@.len(),
                n == placement@.len(),
                preds == locations@,
                pl == placement@,
                e == Set::<LogicToken>::empty(),
                reached@.len() == n,
                spheres@.len() == n,
                j <= newly@.len(),
                prev == sphere_round(preds, pl, pass as nat),
                next == sphere_round(preds, pl, (pass + 1) as nat),
                forall|k: int| 0 <= k < newly@.len() ==> #[trigger] newly@[k] < n,
                forall|a: int, b: int| 0 <= a < b < newly@.len() ==> newly@[a] < newly@[b],
                forall|k: int| 0 <= k < newly@.len() ==> !prev.contains(#[trigger] newly@[k] as int),
                forall|k: int| 0 <= k < newly@.len() ==> next.contains(#[trigger] newly@[k] as int),
                forall|m: int|
                    0 <= m < n && !prev.contains(m) && eval(#[trigger] preds[m], owned_set(pl, e, prev), prev)
                        ==> newly@.contains(m as usize),
                marked(reached@) == prev.union(Set::new(|m: int| exists|k: int| 0 <= k < j && newly@[k] == m)),
                count == num_true(reached@),
                count == start_count + j,
                count <= n,
                owned@.to_set() == owned_set(pl, e, marked(reached@)),
                forall|l: int|
                    0 <= l < n ==> match #[trigger] spheres@[l] {
                        Some(s) => s <= pass && has_sphere(preds, pl, l, s as nat),
                        None => !reached@[l],
                    },
            decreases newly.len() - j,
        {
            let l = newly[j];
            let ghost before = reached@;
            let ghost jo = j as int;
            proof {
                assert(!marked(before).contains(l as int)) by {
                    if marked(before).contains(l as int) {
                        let k = choose|k: int| 0 <= k < j && newly@[k] == l as int;
                        if k < j {
                            assert(newly@[k] < newly@[j as int]);
                        }
                    }
                }
                lemma_num_true_set(before, l as int);
                lemma_num_true_bound(before.update(l as int, true));
            }
            visit(placement, l, &mut reached, &mut owned, Ghost(e));
            spheres.set(l, Some(pass));
            count += 1;
            j += 1;
            proof {
                let s0 = Set::new(|m: int| exists|k: int| 0 <= k < jo && newly@[k] == m);
                let s1 = Set::new(|m: int| exists|k: int| 0 <= k < j && newly@[k] == m);
                assert(marked(before) == prev.union(s0));
                assert(marked(reached@) =~= marked(before).insert(l as int));
                assert forall|m: int| s1.contains(m) <==> (s0.contains(m) || m == l as int) by {
                    if s1.contains(m) {
                        let k = choose|k: int| 0 <= k < j && newly@[k] == m;
                        if k < jo {
                            assert(s0.contains(m));
                        }
                    }
                    if s0.contains(m) {
                        let k = choose|k: int| 0 <= k < jo && newly@[k] == m;
                        assert(0 <= k < j && newly@[k] == m);
                    }
                    if m == l as int {
                        assert(newly@[jo] == m);
                    }
                }
                assert(marked(reached@) =~= prev.union(s1));
                assert(has_sphere(preds, pl, l as int, pass as nat));
            }
        }
        proof {
            assert forall|m: int| next.contains(m) implies marked(reached@).contains(m) by {
                if !prev.contains(m) {
                    assert(eval(preds[m], owned_set(pl, e, prev), prev));
                    assert(newly@.contains(m as usize));
                    let k = choose|k: int| 0 <= k < newly@.len() && newly@[k] == m as usize;
                    assert(exists|k: int| 0 <= k < j && newly@[k] == m);
                }
            }
            assert(marked(reached@) =~= next);
        }
        if newly.len() > 0 {
            pass += 1;
        } else {
            changed = false;
        }
    }
    proof {
        assert forall|l: int| 0 <= l < n && #[trigger] spheres@[l] is None implies forall|k: nat|
            !(#[trigger] sphere_round(preds, pl, k)).contains(l) by {
            assert forall|k: nat| !(#[trigger] sphere_round(preds, pl, k)).contains(l) by {
                if k <= pass {
                    lemma_rounds_grow(preds, pl, k, pass as nat);
                } else {
                    lemma_rounds_settle(preds, pl, pass as nat, k);
                }
            }
        }
    }
    spheres
}

} // verus!
