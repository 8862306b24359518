//! The order in which bids are served: highest amount first, and among equal
//! amounts the bid that came first.
//!
//! An order is a sequence of positions into the list of amounts. The module
//! says which orders are rankings, and proves that every list of amounts has
//! exactly one.

use vstd::prelude::*;
use vstd::set_lib::*;

verus! {

/// Whether the bid at position `i` is served before the bid at position `j`:
/// it offers more, or it offers the same and came earlier.
pub open spec fn precedes(amounts: Seq<nat>, i: int, j: int) -> bool {
    amounts[i] > amounts[j] || (amounts[i] == amounts[j] && i < j)
}

/// Whether `order` lists the positions of `amounts` so that each position is
/// served before all that follow it.
pub open spec fn is_ranking(amounts: Seq<nat>, order: Seq<int>) -> bool {
    &&& order.len() == amounts.len()
    &&& forall|k: int| 0 <= k < order.len() ==> 0 <= #[trigger] order[k] < amounts.len()
    &&& forall|k: int, l: int|
        0 <= k < l < order.len() ==> precedes(amounts, #[trigger] order[k], #[trigger] order[l])
}

/// The ranking of `amounts`.
pub open spec fn ranking(amounts: Seq<nat>) -> Seq<int> {
    choose|order: Seq<int>| is_ranking(amounts, order)
}

/// The items in the given order: the `k`-th is the item at position `order[k]`.
pub open spec fn arranged<T>(items: Seq<T>, order: Seq<int>) -> Seq<T> {
    Seq::new(order.len(), |k: int| items[order[k]])
}

/// A ranking names no position twice.
pub proof fn lemma_ranking_has_no_duplicates(amounts: Seq<nat>, order: Seq<int>)
    requires
        is_ranking(amounts, order),
    ensures
        order.no_duplicates(),
{
    assert forall|k: int, l: int|
        0 <= k < order.len() && 0 <= l < order.len() && k != l implies order[k] != order[l] by {
        if k < l {
            assert(precedes(amounts, order[k], order[l]));
        } else {
            assert(precedes(amounts, order[l], order[k]));
        }
    }
}

/// A ranking names every position.
pub proof fn lemma_ranking_covers(amounts: Seq<nat>, order: Seq<int>, i: int)
    requires
        is_ranking(amounts, order),
        0 <= i < amounts.len(),
    ensures
        order.contains(i),
{
    let positions = set_int_range(0, amounts.len() as int);
    lemma_ranking_has_no_duplicates(amounts, order);
    order.unique_seq_to_set();
    lemma_int_range(0, amounts.len() as int);
    assert forall|x: int| order.to_set().contains(x) implies positions.contains(x) by {
        let k = choose|k: int| 0 <= k < order.len() && order[k] == x;
        assert(0 <= order[k] < amounts.len());
    }
    lemma_set_subset_finite(positions, order.to_set());
    lemma_subset_equality(order.to_set(), positions);
    assert(positions.contains(i));
}

proof fn lemma_rankings_agree_below(
    amounts: Seq<nat>,
    first: Seq<int>,
    second: Seq<int>,
    bound: int,
)
    requires
        is_ranking(amounts, first),
        is_ranking(amounts, second),
        0 <= bound <= amounts.len(),
    ensures
        forall|j: int| 0 <= j < bound ==> first[j] == second[j],
    decreases bound,
{
    if bound > 0 {
        lemma_rankings_agree_below(amounts, first, second, bound - 1);
        let j = bound - 1;
        if first[j] != second[j] {
            assert(0 <= first[j] < amounts.len());
            assert(0 <= second[j] < amounts.len());
            lemma_ranking_covers(amounts, second, first[j]);
            let m = choose|m: int| 0 <= m < second.len() && second[m] == first[j];
            lemma_ranking_covers(amounts, first, second[j]);
            let w = choose|w: int| 0 <= w < first.len() && first[w] == second[j];
            if m < j {
                assert(first[m] == second[m]);
                assert(precedes(amounts, first[m], first[j]));
            }
            if w < j {
                assert(first[w] == second[w]);
                assert(precedes(amounts, second[w], second[j]));
            }
            assert(precedes(amounts, second[j], second[m]));
            assert(precedes(amounts, first[j], first[w]));
            assert(false);
        }
    }
}

/// A list of amounts has at most one ranking.
pub proof fn lemma_ranking_unique(amounts: Seq<nat>, first: Seq<int>, second: Seq<int>)
    requires
        is_ranking(amounts, first),
        is_ranking(amounts, second),
    ensures
        first == second,
{
    lemma_rankings_agree_below(amounts, first, second, amounts.len() as int);
    assert(first =~= second);
}

/// The first place in `order` at or after `from` whose bid offers less than
/// `amount`, or the length of `order` where there is none.
proof fn lemma_place_for(amounts: Seq<nat>, order: Seq<int>, amount: nat, from: int) -> (place: int)
    requires
        is_ranking(amounts, order),
        0 <= from <= order.len(),
        forall|k: int| 0 <= k < from ==> amounts[#[trigger] order[k]] >= amount,
    ensures
        from <= place <= order.len(),
        forall|k: int| 0 <= k < place ==> amounts[#[trigger] order[k]] >= amount,
        forall|k: int| place <= k < order.len() ==> amounts[#[trigger] order[k]] < amount,
    decreases order.len() - from,
{
    if from == order.len() {
        from
    } else if amounts[order[from]] < amount {
        assert forall|k: int| from <= k < order.len() implies amounts[#[trigger] order[k]]
            < amount by {
            if from < k {
                assert(precedes(amounts, order[from], order[k]));
            }
        }
        from
    } else {
        lemma_place_for(amounts, order, amount, from + 1)
    }
}

/// Every list of amounts has a ranking.
pub proof fn lemma_ranking_exists(amounts: Seq<nat>) -> (order: Seq<int>)
    ensures
        is_ranking(amounts, order),
    decreases amounts.len(),
{
    if amounts.len() == 0 {
        Seq::empty()
    } else {
        let newest = amounts.len() - 1;
        let earlier = amounts.drop_last();
        let before = lemma_ranking_exists(earlier);
        let place = lemma_place_for(earlier, before, amounts[newest], 0);
        let order = before.insert(place, newest);
        assert forall|k: int| 0 <= k < order.len() implies 0 <= #[trigger] order[k]
            < amounts.len() by {
            if k < place {
                assert(order[k] == before[k]);
            } else if k > place {
                assert(order[k] == before[k - 1]);
            }
        }
        assert forall|k: int, l: int| 0 <= k < l < order.len() implies precedes(
            amounts,
            #[trigger] order[k],
            #[trigger] order[l],
        ) by {
            let a = if k < place { k } else { k - 1 };
            let b = if l < place { l } else { l - 1 };
            if k != place {
                assert(order[k] == before[a]);
                assert(0 <= before[a] < earlier.len());
            }
            if l != place {
                assert(order[l] == before[b]);
                assert(0 <= before[b] < earlier.len());
            }
            if k != place && l != place {
                assert(precedes(earlier, before[a], before[b]));
            }
        }
        order
    }
}

/// The ranking of `amounts` is a ranking, and the only one.
pub proof fn lemma_ranking_is(amounts: Seq<nat>, order: Seq<int>)
    requires
        is_ranking(amounts, order),
    ensures
        ranking(amounts) == order,
{
    lemma_ranking_unique(amounts, ranking(amounts), order);
}

/// The ranking serves a bid that offers strictly more before one that offers
/// less, and bids that offer the same in the order in which they came.
pub proof fn lemma_ranking_descends(amounts: Seq<nat>)
    ensures
        is_ranking(amounts, ranking(amounts)),
        forall|k: int, l: int|
            0 <= k < l < amounts.len() ==> amounts[#[trigger] ranking(amounts)[k]]
                >= amounts[#[trigger] ranking(amounts)[l]],
        forall|k: int, l: int|
            0 <= k < l < amounts.len() && amounts[#[trigger] ranking(amounts)[k]]
                == amounts[#[trigger] ranking(amounts)[l]] ==> ranking(amounts)[k] < ranking(
                amounts,
            )[l],
{
    let witness = lemma_ranking_exists(amounts);
    let order = ranking(amounts);
    assert forall|k: int, l: int| 0 <= k < l < amounts.len() implies amounts[#[trigger] order[k]]
        >= amounts[#[trigger] order[l]] by {
        assert(precedes(amounts, order[k], order[l]));
    }
    assert forall|k: int, l: int|
        0 <= k < l < amounts.len() && amounts[#[trigger] order[k]]
            == amounts[#[trigger] order[l]] implies order[k] < order[l] by {
        assert(precedes(amounts, order[k], order[l]));
    }
}

} // verus!
