//! The order in which registered hooks run: ascending priority, and among
//! equal priorities the order of registration.

use itertools::Itertools;
use vstd::prelude::*;

verus! {

/// Whether the hook registered at `first` runs before the one at `second`:
/// its priority is lower, or equal with an earlier registration.
pub open spec fn runs_before(priorities: Seq<i8>, first: int, second: int) -> bool {
    priorities[first] < priorities[second] || (priorities[first] == priorities[second] && first
        < second)
}

/// Whether `index` stands somewhere in `order`.
pub open spec fn occurs(order: Seq<usize>, index: int) -> bool {
    exists|k: int| 0 <= k < order.len() && order[k] == index
}

/// Whether `order` lists every registration index once, so that each hook runs
/// before all that stand behind it.
pub open spec fn is_priority_order(priorities: Seq<i8>, order: Seq<usize>) -> bool {
    &&& order.len() == priorities.len()
    &&& forall|k: int| 0 <= k < order.len() ==> (#[trigger] order[k]) < priorities.len()
    &&& forall|i: int, j: int|
        0 <= i < j < order.len() ==> runs_before(
            priorities,
            #[trigger] order[i] as int,
            #[trigger] order[j] as int,
        )
    &&& forall|index: int| 0 <= index < priorities.len() ==> #[trigger] occurs(order, index)
}

/// The order in which hooks of the given priorities run.
pub open spec fn priority_order(priorities: Seq<i8>) -> Seq<usize> {
    choose|order: Seq<usize>| is_priority_order(priorities, order)
}

proof fn lemma_orders_agree_upto(priorities: Seq<i8>, first: Seq<usize>, second: Seq<usize>, upto: int)
    requires
        is_priority_order(priorities, first),
        is_priority_order(priorities, second),
        0 <= upto <= priorities.len(),
    ensures
        forall|k: int| 0 <= k < upto ==> first[k] == second[k],
    decreases upto,
{
    if upto > 0 {
        lemma_orders_agree_upto(priorities, first, second, upto - 1);
        let k = upto - 1;
        lemma_not_ahead(priorities, first, second, k);
        lemma_not_ahead(priorities, second, first, k);
    }
}

/// Of two orders that agree before `k`, neither holds at `k` an index that
/// runs before the index the other holds there.
proof fn lemma_not_ahead(priorities: Seq<i8>, first: Seq<usize>, second: Seq<usize>, k: int)
    requires
        is_priority_order(priorities, first),
        is_priority_order(priorities, second),
        0 <= k < priorities.len(),
        forall|i: int| 0 <= i < k ==> first[i] == second[i],
    ensures
        !runs_before(priorities, first[k] as int, second[k] as int),
{
    let a = first[k] as int;
    if runs_before(priorities, a, second[k] as int) {
        assert(occurs(second, a));
        let j = choose|j: int| 0 <= j < second.len() && second[j] == a;
        if j < k {
            assert(first[j] == second[j]);
            assert(runs_before(priorities, first[j] as int, first[k] as int));
        } else if j > k {
            assert(runs_before(priorities, second[k] as int, second[j] as int));
        }
    }
}

/// There is only one priority order.
pub proof fn lemma_priority_order_unique(priorities: Seq<i8>, order: Seq<usize>)
    requires
        is_priority_order(priorities, order),
    ensures
        order == priority_order(priorities),
{
    let chosen = priority_order(priorities);
    lemma_orders_agree_upto(priorities, order, chosen, priorities.len() as int);
    assert(order =~= chosen);
}

/// The indices `0..priorities.len()` sorted by `itertools::Itertools::sorted_by_key`
/// with the priority as key. That sort is stable and keeps every element, so the
/// result lists each index once, by ascending priority, equal priorities in
/// ascending index.
#[verifier::external_body]
fn sorted_indices(priorities: &Vec<i8>) -> (order: Vec<usize>)
    ensures
        is_priority_order(priorities@, order@),
{
    (0..priorities.len()).sorted_by_key(|index| priorities[*index]).collect()
}

/// Computes the order in which hooks of the given priorities run.
pub fn order_by_priority(priorities: &Vec<i8>) -> (order: Vec<usize>)
    ensures
        order@ == priority_order(priorities@),
        is_priority_order(priorities@, order@),
{
    let order: Vec<usize> = sorted_indices(priorities);
    proof {
        lemma_priority_order_unique(priorities@, order@);
    }
    order
}

} // verus!
