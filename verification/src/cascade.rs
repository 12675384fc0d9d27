//! Overriding: of the utilities applied to one element, those that collide with
//! a later one give way to it.

use vstd::prelude::*;
use vstd::string::*;
use crate::text::texts;
use crate::utility::{collide, share_identifier, utility_ids, views, ResolvedUtility, UtilityModel};

verus! {

/// Whether the utility at `index` stays: no utility declared after it collides
/// with it.
pub open spec fn survives(utilities: Seq<UtilityModel>, index: int) -> bool {
    forall|later: int|
        index < later < utilities.len() ==> !collide(utilities[index], #[trigger] utilities[later])
}

/// Those of the first `count` utilities that stay, in declaration order.
pub open spec fn retained_upto(utilities: Seq<UtilityModel>, count: nat) -> Seq<UtilityModel>
    decreases count,
{
    if count == 0 {
        Seq::empty()
    } else if survives(utilities, count - 1) {
        retained_upto(utilities, (count - 1) as nat).push(utilities[count - 1])
    } else {
        retained_upto(utilities, (count - 1) as nat)
    }
}

/// The utilities that stay when the later of two colliding utilities wins.
pub open spec fn retained(utilities: Seq<UtilityModel>) -> Seq<UtilityModel> {
    retained_upto(utilities, utilities.len())
}

/// Those of `kept` that a newly applied utility does not replace.
pub open spec fn spared(kept: Seq<UtilityModel>, next: UtilityModel) -> Seq<UtilityModel> {
    kept.filter(|earlier: UtilityModel| !collide(earlier, next))
}

/// Collision is symmetric: it does not matter which of two utilities is asked.
pub proof fn lemma_collide_symmetric(a: UtilityModel, b: UtilityModel)
    ensures
        collide(a, b) == collide(b, a),
{
    let x = utility_ids(a);
    let y = utility_ids(b);
    if collide(a, b) {
        let (i, j) = choose|i: int, j: int| 0 <= i < x.len() && 0 <= j < y.len() && x[i] == y[j];
        assert(0 <= j < y.len() && 0 <= i < x.len() && y[j] == x[i]);
    }
    if collide(b, a) {
        let (j, i) = choose|j: int, i: int| 0 <= j < y.len() && 0 <= i < x.len() && y[j] == x[i];
        assert(0 <= i < x.len() && 0 <= j < y.len() && x[i] == y[j]);
    }
}

/// Two utilities that have an identifier in common collide.
pub proof fn lemma_common_id_collides(a: UtilityModel, b: UtilityModel, id: Seq<char>)
    requires
        utility_ids(a).contains(id),
        utility_ids(b).contains(id),
    ensures
        collide(a, b),
{
    let x = utility_ids(a);
    let y = utility_ids(b);
    let i = choose|i: int| 0 <= i < x.len() && x[i] == id;
    let j = choose|j: int| 0 <= j < y.len() && y[j] == id;
    assert(0 <= i < x.len() && 0 <= j < y.len() && x[i] == y[j]);
}

/// Last wins: of two utilities that have a collision identifier in common, only
/// the one declared later is retained, whichever order they are applied in.
pub proof fn lemma_later_wins(a: UtilityModel, b: UtilityModel, id: Seq<char>)
    requires
        utility_ids(a).contains(id),
        utility_ids(b).contains(id),
    ensures
        retained(seq![a, b]) == seq![b],
        retained(seq![b, a]) == seq![a],
{
    lemma_common_id_collides(a, b, id);
    lemma_common_id_collides(b, a, id);
    lemma_pair_retained(a, b);
    lemma_pair_retained(b, a);
}

/// Of two utilities applied in order, the first is retained only if the second
/// does not collide with it; the second always is.
pub proof fn lemma_pair_retained(first: UtilityModel, second: UtilityModel)
    ensures
        collide(first, second) ==> retained(seq![first, second]) == seq![second],
        !collide(first, second) ==> retained(seq![first, second]) == seq![first, second],
{
    let s = seq![first, second];
    reveal_with_fuel(retained_upto, 3);
    assert(survives(s, 1));
    if collide(first, second) {
        assert(s[1] == second);
        assert(!survives(s, 0));
        assert(retained(s) =~= seq![second]);
    } else {
        assert(survives(s, 0)) by {
            assert forall|later: int| 0 < later < s.len() implies !collide(
                s[0],
                #[trigger] s[later],
            ) by {
                assert(later == 1);
            }
        }
        assert(retained(s) =~= s);
    }
}

/// Every retained utility was applied, and no utility applied after it collides
/// with it; no two retained utilities collide.
pub proof fn lemma_retained_upto(utilities: Seq<UtilityModel>, count: nat)
    requires
        count <= utilities.len(),
    ensures
        retained_upto(utilities, count).len() <= count,
        forall|i: int|
            0 <= i < retained_upto(utilities, count).len() ==> exists|k: int|
                0 <= k < count && #[trigger] retained_upto(utilities, count)[i] == utilities[k]
                    && survives(utilities, k),
        forall|i: int, j: int|
            0 <= i < j < retained_upto(utilities, count).len() ==> !collide(
                #[trigger] retained_upto(utilities, count)[i],
                #[trigger] retained_upto(utilities, count)[j],
            ),
    decreases count,
{
    if count > 0 {
        let before = retained_upto(utilities, (count - 1) as nat);
        let now = retained_upto(utilities, count);
        let last = utilities[count - 1];
        lemma_retained_upto(utilities, (count - 1) as nat);
        assert forall|i: int| 0 <= i < now.len() implies exists|k: int|
            0 <= k < count && #[trigger] now[i] == utilities[k] && survives(utilities, k) by {
            if i < before.len() {
                assert(now[i] == before[i]);
                let k = choose|k: int|
                    0 <= k < count - 1 && before[i] == utilities[k] && survives(utilities, k);
                assert(0 <= k < count && now[i] == utilities[k] && survives(utilities, k));
            } else {
                assert(now[i] == last);
                assert(0 <= count - 1 < count && now[i] == utilities[count - 1] && survives(
                    utilities,
                    count - 1,
                ));
            }
        }
        assert forall|i: int, j: int| 0 <= i < j < now.len() implies !collide(
            #[trigger] now[i],
            #[trigger] now[j],
        ) by {
            if j < before.len() {
                assert(now[i] == before[i] && now[j] == before[j]);
            } else {
                assert(now[j] == last);
                assert(now[i] == before[i]);
                let k = choose|k: int|
                    0 <= k < count - 1 && before[i] == utilities[k] && survives(utilities, k);
                assert(!collide(utilities[k], utilities[count - 1]));
            }
        }
    }
}

/// No two retained utilities collide.
pub proof fn lemma_retained_disjoint(utilities: Seq<UtilityModel>, i: int, j: int)
    requires
        0 <= i < j < retained(utilities).len(),
    ensures
        !collide(retained(utilities)[i], retained(utilities)[j]),
{
    lemma_retained_upto(utilities, utilities.len());
}

/// The utility declared last is always retained, in the last place.
pub proof fn lemma_last_stays(utilities: Seq<UtilityModel>)
    requires
        utilities.len() > 0,
    ensures
        retained(utilities).len() > 0,
        retained(utilities).last() == utilities.last(),
{
    assert(survives(utilities, utilities.len() - 1));
}

/// Applying one more utility replaces, among the utilities retained so far, those
/// that collide with it, and retains the new one.
pub proof fn lemma_retained_step(utilities: Seq<UtilityModel>, next: UtilityModel)
    ensures
        retained(utilities.push(next)) == spared(retained(utilities), next).push(next),
{
    let extended = utilities.push(next);
    lemma_spared_upto(utilities, next, utilities.len());
    assert(survives(extended, utilities.len() as int));
    assert(extended[utilities.len() as int] == next);
}

/// The first `count` utilities, as they are retained once `next` has been applied
/// after all of them.
proof fn lemma_spared_upto(utilities: Seq<UtilityModel>, next: UtilityModel, count: nat)
    requires
        count <= utilities.len(),
    ensures
        retained_upto(utilities.push(next), count) == spared(retained_upto(utilities, count), next),
    decreases count,
{
    let extended = utilities.push(next);
    reveal(Seq::filter);
    if count == 0 {
        assert(spared(Seq::<UtilityModel>::empty(), next) =~= Seq::<UtilityModel>::empty());
    } else {
        let k = count - 1;
        lemma_spared_upto(utilities, next, k as nat);
        let before = retained_upto(utilities, k as nat);
        assert(extended[k] == utilities[k]);
        assert(extended[utilities.len() as int] == next);
        assert(survives(extended, k) == (survives(utilities, k) && !collide(utilities[k], next)))
            by {
            if survives(extended, k) {
                assert forall|later: int| k < later < utilities.len() implies !collide(
                    utilities[k],
                    #[trigger] utilities[later],
                ) by {
                    assert(extended[later] == utilities[later]);
                }
                assert(!collide(extended[k], extended[utilities.len() as int]));
            }
            if survives(utilities, k) && !collide(utilities[k], next) {
                assert forall|later: int| k < later < extended.len() implies !collide(
                    extended[k],
                    #[trigger] extended[later],
                ) by {
                    if later < utilities.len() {
                        assert(extended[later] == utilities[later]);
                    }
                }
            }
        }
        if survives(utilities, k) {
            let now = before.push(utilities[k]);
            assert(now.drop_last() =~= before);
            assert(now.last() == utilities[k]);
            assert(spared(now, next) == if !collide(utilities[k], next) {
                spared(before, next).push(utilities[k])
            } else {
                spared(before, next)
            });
        }
    }
}

/// Whether a utility declared after the one at `index` collides with it.
fn overridden(
    ids: &Vec<Vec<String>>,
    index: usize,
    Ghost(utilities): Ghost<Seq<UtilityModel>>,
) -> (lost: bool)
    requires
        index < ids.len(),
        ids.len() == utilities.len(),
        forall|k: int|
            0 <= k < ids.len() ==> texts(#[trigger] ids@[k]@) == utility_ids(utilities[k]),
    ensures
        lost == !survives(utilities, index as int),
{
    let mut later: usize = index + 1;
    while later < ids.len()
        invariant
            index < later <= ids.len(),
            ids.len() == utilities.len(),
            forall|k: int|
                0 <= k < ids.len() ==> texts(#[trigger] ids@[k]@) == utility_ids(utilities[k]),
            forall|k: int|
                index < k < later ==> !collide(utilities[index as int], #[trigger] utilities[k]),
        decreases ids.len() - later,
    {
        if share_identifier(&ids[index], &ids[later]) {
            assert(collide(utilities[index as int], utilities[later as int]));
            return true;
        }
        later += 1;
    }
    false
}

/// Applies the utilities of one element in declaration order: each utility
/// replaces every earlier one that it collides with. What is left is returned in
/// declaration order.
pub fn cascade(utilities: &[ResolvedUtility]) -> (kept: Vec<ResolvedUtility>)
    ensures
        views(kept@) == retained(views(utilities@)),
{
    let ghost models = views(utilities@);
    let mut ids: Vec<Vec<String>> = Vec::new();
    let mut i: usize = 0;
    while i < utilities.len()
        invariant
            i <= utilities.len(),
            ids.len() == i,
            models == views(utilities@),
            forall|k: int| 0 <= k < i ==> texts(#[trigger] ids@[k]@) == utility_ids(models[k]),
        decreases utilities.len() - i,
    {
        ids.push(utilities[i].get_collisions());
        i += 1;
    }
    let mut kept: Vec<ResolvedUtility> = Vec::new();
    let mut i: usize = 0;
    while i < utilities.len()
        invariant
            i <= utilities.len(),
            ids.len() == utilities.len(),
            models == views(utilities@),
            forall|k: int|
                0 <= k < ids.len() ==> texts(#[trigger] ids@[k]@) == utility_ids(models[k]),
            views(kept@) == retained_upto(models, i as nat),
        decreases utilities.len() - i,
    {
        if !overridden(&ids, i, Ghost(models)) {
            let ghost before = kept@;
            kept.push(utilities[i].clone());
            assert(views(kept@) =~= views(before).push(models[i as int]));
        }
        i += 1;
    }
    kept
}

} // verus!
