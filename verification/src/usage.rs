//! How often each generic type variable occurs in the types of a declaration.
//!
//! A variable that occurs once constrains nothing and is printed as `any`;
//! one that occurs more often becomes a type parameter of the declaration.

use crate::types::{Type, TypeVar};
use std::collections::HashMap;
use vstd::prelude::*;
use vstd::std_specs::hash::spec_hash_map_iter;
use vstd::std_specs::iter::IteratorSpec;

verus! {

broadcast use vstd::std_specs::hash::group_hash_axioms;

/// The sum of `values`.
pub open spec fn sum(values: Seq<nat>) -> nat
    decreases values.len(),
{
    if values.len() == 0 {
        0
    } else {
        sum(values.drop_last()) + values.last()
    }
}

/// How often the generic type variable `id` occurs in `type_`.
pub open spec fn occurrences(type_: &Type, id: u64) -> nat
    decreases type_,
{
    match type_ {
        Type::Var { type_: TypeVar::Generic { id: found } } => if *found == id {
            1
        } else {
            0
        },
        Type::Var { type_: TypeVar::Unbound { .. } } => 0,
        Type::Var { type_: TypeVar::Link { type_: inner } } => occurrences(inner, id),
        Type::App { args, .. } => occurrences_in(args@, id),
        Type::Fn { args, retrn } => occurrences_in(args@, id) + occurrences(retrn, id),
        Type::Tuple { elems } => occurrences_in(elems@, id),
    }
}

/// How often `id` occurs in each of `types`.
pub open spec fn occurrences_each(types: Seq<Type>, id: u64) -> Seq<nat>
    decreases types, 0nat,
{
    Seq::new(
        types.len(),
        |i: int|
            if 0 <= i < types.len() {
                occurrences(&types[i], id)
            } else {
                0
            },
    )
}

/// How often `id` occurs in `types` taken together.
pub open spec fn occurrences_in(types: Seq<Type>, id: u64) -> nat
    decreases types, 1nat,
{
    sum(occurrences_each(types, id))
}

/// The types that `types` refer to.
pub open spec fn referents(types: Seq<&Type>) -> Seq<Type> {
    Seq::new(types.len(), |i: int| *types[i])
}

/// The count that `usages` holds for `id`: zero where it holds none.
pub open spec fn counted(usages: Map<u64, u64>, id: u64) -> nat {
    if usages.contains_key(id) {
        usages[id] as nat
    } else {
        0
    }
}

/// `count` as far as a table can hold it.
pub open spec fn clipped(count: nat) -> u64 {
    if count > u64::MAX {
        u64::MAX
    } else {
        count as u64
    }
}

/// `usages` after `more(id)` further occurrences of each `id` were counted.
pub open spec fn tallied(usages: Map<u64, u64>, more: spec_fn(u64) -> nat) -> Map<u64, u64> {
    Map::new(
        |id: u64| usages.contains_key(id) || more(id) > 0,
        |id: u64| clipped(counted(usages, id) + more(id)),
    )
}

/// `usages` after the occurrences in `type_` were counted.
pub open spec fn with_usages_of(usages: Map<u64, u64>, type_: &Type) -> Map<u64, u64> {
    tallied(usages, |id: u64| occurrences(type_, id))
}

/// `usages` after the occurrences in all of `types` were counted.
pub open spec fn with_usages_in(usages: Map<u64, u64>, types: Seq<Type>) -> Map<u64, u64> {
    tallied(usages, |id: u64| occurrences_in(types, id))
}

/// The usage table of a declaration whose types are `types`.
pub open spec fn usages_among(types: Seq<Type>) -> Map<u64, u64> {
    with_usages_in(Map::empty(), types)
}

/// Whether `ids` rises strictly from each item to the next.
pub open spec fn ascending(ids: Seq<u64>) -> bool {
    forall|i: int, j: int| 0 <= i < j < ids.len() ==> ids[i] < ids[j]
}

/// Whether `ids` lists, in ascending order and each once, the variables that
/// `usages` has counted `at_least` times or more.
pub open spec fn lists_generics(ids: Seq<u64>, usages: Map<u64, u64>, at_least: u64) -> bool {
    &&& ascending(ids)
    &&& forall|id: u64| #[trigger]
        ids.contains(id) <==> usages.contains_key(id) && usages[id] >= at_least
}

/// The variables below `bound` that `usages` has counted `at_least` times
/// or more, in ascending order.
pub open spec fn generics_below(usages: Map<u64, u64>, at_least: u64, bound: nat) -> Seq<u64>
    decreases bound,
{
    if bound == 0 {
        Seq::empty()
    } else {
        let id = (bound - 1) as u64;
        let below = generics_below(usages, at_least, (bound - 1) as nat);
        if bound - 1 <= u64::MAX && usages.contains_key(id) && usages[id] >= at_least {
            below.push(id)
        } else {
            below
        }
    }
}

/// The variables that `usages` has counted `at_least` times or more, in
/// ascending order.
pub open spec fn generics_of(usages: Map<u64, u64>, at_least: u64) -> Seq<u64> {
    generics_below(usages, at_least, u64::MAX as nat + 1)
}

proof fn lemma_sum_take(values: Seq<nat>, count: int)
    requires
        0 <= count < values.len(),
    ensures
        sum(values.take(count + 1)) == sum(values.take(count)) + values[count],
{
    assert(values.take(count + 1).drop_last() =~= values.take(count));
}

proof fn lemma_occurrences_take(types: Seq<Type>, count: int, id: u64)
    requires
        0 <= count < types.len(),
    ensures
        occurrences_in(types.take(count + 1), id) == occurrences_in(types.take(count), id)
            + occurrences(&types[count], id),
{
    let each = occurrences_each(types, id);
    assert(occurrences_each(types.take(count + 1), id) =~= each.take(count + 1));
    assert(occurrences_each(types.take(count), id) =~= each.take(count));
    lemma_sum_take(each, count);
}

proof fn lemma_tallied_twice(
    usages: Map<u64, u64>,
    first: spec_fn(u64) -> nat,
    second: spec_fn(u64) -> nat,
    both: spec_fn(u64) -> nat,
)
    requires
        forall|id: u64| #[trigger] both(id) == first(id) + second(id),
    ensures
        tallied(tallied(usages, first), second) == tallied(usages, both),
{
    assert forall|id: u64| #[trigger]
        tallied(tallied(usages, first), second).contains_key(id) == tallied(
            usages,
            both,
        ).contains_key(id) by {
        assert(both(id) == first(id) + second(id));
    }
    assert forall|id: u64| #[trigger]
        tallied(usages, both).contains_key(id) implies tallied(
        tallied(usages, first),
        second,
    )[id] == tallied(usages, both)[id] by {
        assert(both(id) == first(id) + second(id));
    }
    assert(tallied(tallied(usages, first), second) =~= tallied(usages, both));
}

proof fn lemma_generics_below(usages: Map<u64, u64>, at_least: u64, bound: nat)
    requires
        bound <= u64::MAX + 1,
    ensures
        ascending(generics_below(usages, at_least, bound)),
        forall|id: u64| #[trigger]
            generics_below(usages, at_least, bound).contains(id) <==> id < bound
                && usages.contains_key(id) && usages[id] >= at_least,
    decreases bound,
{
    let ids = generics_below(usages, at_least, bound);
    if bound > 0 {
        let last = (bound - 1) as u64;
        let below = generics_below(usages, at_least, (bound - 1) as nat);
        lemma_generics_below(usages, at_least, (bound - 1) as nat);
        assert forall|i: int, j: int| 0 <= i < j < ids.len() implies ids[i] < ids[j] by {
            if j < below.len() {
                assert(below[i] < below[j]);
            } else {
                assert(below.contains(below[i]));
            }
        }
        assert forall|id: u64| #[trigger]
            ids.contains(id) <==> id < bound && usages.contains_key(id) && usages[id]
                >= at_least by {
            if ids.contains(id) {
                let i = choose|i: int| 0 <= i < ids.len() && ids[i] == id;
                if i < below.len() {
                    assert(below[i] == id);
                    assert(below.contains(id));
                }
            }
            if id < bound && usages.contains_key(id) && usages[id] >= at_least {
                if id == last {
                    assert(ids[ids.len() - 1] == id);
                } else {
                    assert(below.contains(id));
                    let i = choose|i: int| 0 <= i < below.len() && below[i] == id;
                    assert(ids[i] == id);
                }
            }
        }
    }
}

/// The listing of the variables that were counted often enough is
/// ascending, holds each of them once, and holds nothing else.
pub proof fn lemma_generics_of_lists(usages: Map<u64, u64>, at_least: u64)
    ensures
        lists_generics(generics_of(usages, at_least), usages, at_least),
{
    lemma_generics_below(usages, at_least, u64::MAX as nat + 1);
}

/// Two listings of the same variables are the same listing.
pub proof fn lemma_listing_is_unique(
    left: Seq<u64>,
    right: Seq<u64>,
    usages: Map<u64, u64>,
    at_least: u64,
)
    requires
        lists_generics(left, usages, at_least),
        lists_generics(right, usages, at_least),
    ensures
        left == right,
{
    lemma_ascending_unique(left, right);
}

proof fn lemma_ascending_unique(left: Seq<u64>, right: Seq<u64>)
    requires
        ascending(left),
        ascending(right),
        forall|id: u64| left.contains(id) <==> right.contains(id),
    ensures
        left == right,
    decreases left.len(),
{
    if left.len() == 0 {
        if right.len() > 0 {
            assert(right.contains(right[0]));
        }
        assert(left =~= right);
    } else {
        let top = left.last();
        assert(left.contains(top));
        assert(right.contains(top));
        assert(right.len() > 0);
        assert(right.contains(right.last()));
        assert(left.contains(right.last()));
        assert(right.last() == top);
        let shorter_left = left.drop_last();
        let shorter_right = right.drop_last();
        assert forall|id: u64| shorter_left.contains(id) <==> shorter_right.contains(id) by {
            if shorter_left.contains(id) {
                let i = choose|i: int| 0 <= i < shorter_left.len() && shorter_left[i] == id;
                assert(left[i] == id);
                assert(left.contains(id));
                assert(id < top);
                let j = choose|j: int| 0 <= j < right.len() && right[j] == id;
                assert(shorter_right[j] == id);
            }
            if shorter_right.contains(id) {
                let i = choose|i: int| 0 <= i < shorter_right.len() && shorter_right[i] == id;
                assert(right[i] == id);
                assert(right.contains(id));
                assert(id < top);
                let j = choose|j: int| 0 <= j < left.len() && left[j] == id;
                assert(shorter_left[j] == id);
            }
        }
        lemma_ascending_unique(shorter_left, shorter_right);
        assert(left =~= shorter_left.push(top));
        assert(right =~= shorter_right.push(top));
    }
}

/// Counts one more occurrence of `id`.
fn count_usage(ids: &mut HashMap<u64, u64>, id: u64)
    ensures
        final(ids)@ == tallied(
            old(ids)@,
            |other: u64|
                if other == id {
                    1nat
                } else {
                    0nat
                },
        ),
{
    let count = match ids.get(&id) {
        Some(count) => *count,
        None => 0,
    };
    ids.insert(id, count.saturating_add(1));
    assert(ids@ =~= tallied(
        old(ids)@,
        |other: u64|
            if other == id {
                1nat
            } else {
                0nat
            },
    ));
}

/// Counts the generic type variables of `type_` into `ids`: each occurrence
/// adds one to the count of its variable. Links are followed; unbound
/// variables are not counted.
pub fn generic_ids(type_: &Type, ids: &mut HashMap<u64, u64>)
    ensures
        final(ids)@ == with_usages_of(old(ids)@, type_),
    decreases type_,
{
    match type_ {
        Type::Var { type_: TypeVar::Generic { id } } => {
            count_usage(ids, *id);
            assert(ids@ =~= with_usages_of(old(ids)@, type_));
        },
        Type::Var { type_: TypeVar::Unbound { .. } } => {
            assert(ids@ =~= with_usages_of(old(ids)@, type_));
        },
        Type::Var { type_: TypeVar::Link { type_: inner } } => {
            generic_ids(inner, ids);
            assert(ids@ =~= with_usages_of(old(ids)@, type_));
        },
        Type::App { args, .. } => {
            generic_ids_in(args, ids);
            assert(ids@ =~= with_usages_of(old(ids)@, type_));
        },
        Type::Fn { args, retrn } => {
            generic_ids_in(args, ids);
            generic_ids(retrn, ids);
            assert(ids@ =~= with_usages_of(old(ids)@, type_));
        },
        Type::Tuple { elems } => {
            generic_ids_in(elems, ids);
            assert(ids@ =~= with_usages_of(old(ids)@, type_));
        },
    }
}

/// Counts the generic type variables of each of `types` into `ids`.
pub fn generic_ids_in(types: &Vec<Type>, ids: &mut HashMap<u64, u64>)
    ensures
        final(ids)@ == with_usages_in(old(ids)@, types@),
    decreases types,
{
    let mut i: usize = 0;
    assert(ids@ =~= with_usages_in(old(ids)@, types@.take(0)));
    while i < types.len()
        invariant
            i <= types.len(),
            ids@ == with_usages_in(old(ids)@, types@.take(i as int)),
        decreases types.len() - i,
    {
        generic_ids(&types[i], ids);
        proof {
            let first = |id: u64| occurrences_in(types@.take(i as int), id);
            let second = |id: u64| occurrences(&types@[i as int], id);
            let both = |id: u64| occurrences_in(types@.take(i + 1), id);
            assert forall|id: u64| #[trigger] both(id) == first(id) + second(id) by {
                lemma_occurrences_take(types@, i as int, id);
            }
            lemma_tallied_twice(old(ids)@, first, second, both);
        }
        i += 1;
    }
    assert(types@.take(types.len() as int) =~= types@);
}

/// Counts the generic type variables of `types` into `ids` and hands the
/// table back.
///
/// A variable with one usage is printed as `any`; one with more is a type
/// parameter. So `fn(a) -> String` has no parameter, and `fn(a) -> a` has
/// one.
pub fn collect_generic_usages(ids: HashMap<u64, u64>, types: &Vec<&Type>) -> (usages: HashMap<
    u64,
    u64,
>)
    ensures
        usages@ == with_usages_in(ids@, referents(types@)),
{
    let mut usages = ids;
    let mut i: usize = 0;
    let ghost all = referents(types@);
    assert(usages@ =~= with_usages_in(ids@, all.take(0)));
    while i < types.len()
        invariant
            i <= types.len(),
            all == referents(types@),
            usages@ == with_usages_in(ids@, all.take(i as int)),
        decreases types.len() - i,
    {
        generic_ids(types[i], &mut usages);
        proof {
            let first = |id: u64| occurrences_in(all.take(i as int), id);
            let second = |id: u64| occurrences(&all[i as int], id);
            let both = |id: u64| occurrences_in(all.take(i + 1), id);
            assert forall|id: u64| #[trigger] both(id) == first(id) + second(id) by {
                lemma_occurrences_take(all, i as int, id);
            }
            lemma_tallied_twice(ids@, first, second, both);
        }
        i += 1;
    }
    assert(all.take(types.len() as int) =~= all);
    usages
}

/// Puts `id` into the ascending `ids`, unless it is there.
fn insert_ascending(ids: &mut Vec<u64>, id: u64)
    requires
        ascending(old(ids)@),
    ensures
        ascending(final(ids)@),
        forall|other: u64| final(ids)@.contains(other) <==> old(ids)@.contains(other) || other == id,
{
    let mut at: usize = 0;
    while at < ids.len() && ids[at] < id
        invariant
            at <= ids.len(),
            ids@ == old(ids)@,
            forall|j: int| 0 <= j < at ==> ids@[j] < id,
        decreases ids.len() - at,
    {
        at += 1;
    }
    if at < ids.len() && ids[at] == id {
        assert(ids@.contains(id));
        return ;
    }
    ids.insert(at, id);
    proof {
        let before = old(ids)@;
        let after = ids@;
        assert(after[at as int] == id);
        assert forall|other: u64| after.contains(other) <==> before.contains(other) || other
            == id by {
            if after.contains(other) {
                let j = choose|j: int| 0 <= j < after.len() && after[j] == other;
                if j < at {
                    assert(before[j] == other);
                } else if j > at {
                    assert(before[j - 1] == other);
                }
            }
            if before.contains(other) {
                let j = choose|j: int| 0 <= j < before.len() && before[j] == other;
                if j < at {
                    assert(after[j] == other);
                } else {
                    assert(after[j + 1] == other);
                }
            }
        }
    }
}

/// The variables that `usages` has counted `at_least` times or more, in
/// ascending order.
pub fn generics_at_least(usages: &HashMap<u64, u64>, at_least: u64) -> (ids: Vec<u64>)
    ensures
        lists_generics(ids@, usages@, at_least),
        ids@ == generics_of(usages@, at_least),
{
    let mut ids: Vec<u64> = Vec::new();
    for entry in iter: usages.iter()
        invariant
            iter.seq() == spec_hash_map_iter(usages).remaining(),
            ascending(ids@),
            forall|k: int|
                0 <= k < ids.len() ==> usages@.contains_key(#[trigger] ids@[k]) && usages@[ids@[k]]
                    >= at_least,
            forall|j: int|
                0 <= j < iter.index() && *(#[trigger] iter.seq()[j]).1 >= at_least
                    ==> ids@.contains(*iter.seq()[j].0),
    {
        let (id, count) = entry;
        let ghost before = ids@;
        if *count >= at_least {
            insert_ascending(&mut ids, *id);
            proof {
                assert forall|k: int| 0 <= k < ids.len() implies usages@.contains_key(
                    #[trigger] ids@[k],
                ) && usages@[ids@[k]] >= at_least by {
                    assert(ids@.contains(ids@[k]));
                    if before.contains(ids@[k]) {
                        let j = choose|j: int| 0 <= j < before.len() && before[j] == ids@[k];
                        assert(usages@.contains_key(before[j]));
                    }
                }
            }
        }
    }
    proof {
        let all = spec_hash_map_iter(usages).remaining();
        assert forall|id: u64|
            #[trigger] ids@.contains(id) <==> usages@.contains_key(id) && usages@[id]
                >= at_least by {
            if ids@.contains(id) {
                let k = choose|k: int| 0 <= k < ids.len() && ids@[k] == id;
                assert(usages@.contains_key(ids@[k]));
            }
            if usages@.contains_key(id) && usages@[id] >= at_least {
                assert(all.contains((&id, &usages@[id])));
                let j = choose|j: int| 0 <= j < all.len() && all[j] == (&id, &usages@[id]);
                assert(*all[j].1 >= at_least);
            }
        }
        lemma_generics_of_lists(usages@, at_least);
        lemma_listing_is_unique(ids@, generics_of(usages@, at_least), usages@, at_least);
    }
    ids
}

} // verus!
