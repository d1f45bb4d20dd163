//! The order of trades in time, and sorting by it.

use vstd::prelude::*;

use crate::lists::reversed;
use crate::trades;
use crate::trades::Trade;

verus! {

/// `a` happened before `b`, or at the same time with a smaller id.
pub open spec fn earlier(a: Trade, b: Trade) -> bool {
    a.mts < b.mts || (a.mts == b.mts && a.id < b.id)
}

/// No trade of the list is earlier than one in front of it.
pub open spec fn in_time_order(trades: Seq<Trade>) -> bool {
    forall|i: int, j: int| 0 <= i < j < trades.len() ==> !earlier(trades[j], trades[i])
}

fn is_earlier(a: &Trade, b: &Trade) -> (yes: bool)
    ensures
        yes == earlier(*a, *b),
{
    a.mts < b.mts || (a.mts == b.mts && a.id < b.id)
}

/// Every trade of `late` comes behind every trade of `soon`.
spec fn all_behind(soon: Seq<Trade>, late: Seq<Trade>) -> bool {
    forall|i: int, j: int|
        0 <= i < soon.len() && 0 <= j < late.len() ==> !earlier(late[j], soon[i])
}

/// The list is in the opposite of time order.
spec fn against_time_order(trades: Seq<Trade>) -> bool {
    forall|i: int, j: int| 0 <= i < j < trades.len() ==> !earlier(trades[i], trades[j])
}

proof fn lemma_empty_multiset(list: Seq<Trade>)
    requires
        list.len() == 0,
    ensures
        list.to_multiset() == vstd::multiset::Multiset::<Trade>::empty(),
{
    assert forall|t: Trade| list.to_multiset().count(t) == 0 by {
        vstd::seq_lib::to_multiset_contains(list, t);
    }
    assert(list.to_multiset() =~= vstd::multiset::Multiset::<Trade>::empty());
}

/// Merges two lists that are in time order.
fn merge_trades(left: Vec<Trade>, right: Vec<Trade>) -> (merged: Vec<Trade>)
    requires
        in_time_order(left@),
        in_time_order(right@),
    ensures
        in_time_order(merged@),
        merged@.to_multiset() == left@.to_multiset().add(right@.to_multiset()),
{
    let ghost all = left@.to_multiset().add(right@.to_multiset());
    let mut a = left;
    let mut b = right;
    let mut taken: Vec<Trade> = Vec::new();
    proof {
        lemma_empty_multiset(taken@);
    }
    while a.len() > 0 || b.len() > 0
        invariant
            in_time_order(a@),
            in_time_order(b@),
            against_time_order(taken@),
            all_behind(a@, taken@),
            all_behind(b@, taken@),
            all == a@.to_multiset().add(b@.to_multiset()).add(taken@.to_multiset()),
        decreases a@.len() + b@.len(),
    {
        let from_a = if a.len() == 0 {
            false
        } else if b.len() == 0 {
            true
        } else {
            !is_earlier(&a[a.len() - 1], &b[b.len() - 1])
        };
        let ghost a0 = a@;
        let ghost b0 = b@;
        let ghost t0 = taken@;
        if from_a {
            let trade = a.pop().unwrap();
            proof {
                assert(a0 =~= a@.push(trade));
                vstd::seq_lib::to_multiset_build(a@, trade);
                vstd::seq_lib::to_multiset_build(taken@, trade);
            }
            taken.push(trade);
            assert forall|i: int, j: int|
                0 <= i < b@.len() && 0 <= j < taken@.len() implies !earlier(
                taken@[j],
                b@[i],
            ) by {
                if j == t0.len() {
                    assert(b@[i] == b@[b@.len() - 1] || !earlier(b@[b@.len() - 1], b@[i]));
                }
            }
            assert forall|i: int, j: int|
                0 <= i < a@.len() && 0 <= j < taken@.len() implies !earlier(
                taken@[j],
                a@[i],
            ) by {
                assert(a@[i] == a0[i]);
                if j == t0.len() {
                    assert(!earlier(a0[a0.len() - 1], a0[i]));
                }
            }
        } else {
            let trade = b.pop().unwrap();
            proof {
                assert(b0 =~= b@.push(trade));
                vstd::seq_lib::to_multiset_build(b@, trade);
                vstd::seq_lib::to_multiset_build(taken@, trade);
            }
            taken.push(trade);
            assert forall|i: int, j: int|
                0 <= i < a@.len() && 0 <= j < taken@.len() implies !earlier(
                taken@[j],
                a@[i],
            ) by {
                if j == t0.len() {
                    assert(a@[i] == a@[a@.len() - 1] || !earlier(a@[a@.len() - 1], a@[i]));
                }
            }
            assert forall|i: int, j: int|
                0 <= i < b@.len() && 0 <= j < taken@.len() implies !earlier(
                taken@[j],
                b@[i],
            ) by {
                assert(b@[i] == b0[i]);
                if j == t0.len() {
                    assert(!earlier(b0[b0.len() - 1], b0[i]));
                }
            }
        }
        assert(all =~= a@.to_multiset().add(b@.to_multiset()).add(taken@.to_multiset()));
    }
    assert(a@ =~= Seq::empty());
    assert(b@ =~= Seq::empty());
    proof {
        lemma_empty_multiset(a@);
        lemma_empty_multiset(b@);
    }
    assert(all =~= taken@.to_multiset());
    let merged = reversed(taken);
    proof {
        taken@.lemma_reverse_to_multiset();
        assert(merged@ =~= taken@.reverse());
    }
    merged
}

/// Sorts trades by time and id: the result holds the same trades, as often, in time order.
pub fn sort_trades(trades: Vec<Trade>) -> (sorted: Vec<Trade>)
    ensures
        in_time_order(sorted@),
        sorted@.to_multiset() == trades@.to_multiset(),
        sorted@.len() == trades@.len(),
        trades::all_well_formed(trades@) ==> trades::all_well_formed(sorted@),
    decreases trades@.len(),
{
    if trades.len() <= 1 {
        return trades;
    }
    let ghost all = trades@;
    let mut front = trades;
    let middle: usize = front.len() / 2;
    let back = front.split_off(middle);
    proof {
        assert(all =~= front@ + back@);
        vstd::seq_lib::lemma_multiset_commutative(front@, back@);
    }
    let sorted = merge_trades(sort_trades(front), sort_trades(back));
    proof {
        vstd::seq_lib::to_multiset_len(sorted@);
        vstd::seq_lib::to_multiset_len(all);
        if trades::all_well_formed(all) {
            assert forall|i: int| 0 <= i < sorted@.len() implies (
            #[trigger] sorted@[i]).well_formed() by {
                vstd::seq_lib::to_multiset_contains(sorted@, sorted@[i]);
                vstd::seq_lib::to_multiset_contains(all, sorted@[i]);
                let j = choose|j: int| 0 <= j < all.len() && all[j] == sorted@[i];
                assert(all[j].well_formed());
            }
        }
    }
    sorted
}

} // verus!
