//! From the bids of one deadline to the transactions of one cycle: decode
//! each payload, drop what does not decode, flag what declares another fee
//! than it bid, and serve the rest highest bid first.

use crate::amount::{amount_key, lemma_halves_decide_value, pair_less, Amount};
use crate::cursor::Transactions;
use crate::diagnostics::Diagnostic;
use crate::ranking::{
    arranged, is_ranking, lemma_ranking_covers, lemma_ranking_descends, lemma_ranking_is, ranking,
};
use crate::transaction::{
    declared_fee, decode_payload, decoded_fields, DecodedTransaction, TxFields, TxModel,
};
use itertools::Itertools;
use std::cmp::Reverse;
use vstd::prelude::*;

verus! {

/// A sealed bid: an amount, and the encoded transaction it bids for.
#[derive(Clone, Debug, PartialEq, Eq)]
pub struct Bid {
    /// What the bid offers. It is claimed to be the priority fee that the
    /// transaction declares.
    pub amount: Amount,
    /// The encoded signed transaction.
    pub data: Vec<u8>,
}

/// The mathematical value of a [`Bid`].
pub struct BidModel {
    /// What the bid offers.
    pub amount: Amount,
    /// The bytes of the encoded transaction.
    pub data: Seq<u8>,
}

impl View for Bid {
    type V = BidModel;

    open spec fn view(&self) -> BidModel {
        BidModel { amount: self.amount, data: self.data@ }
    }
}

impl DeepView for Bid {
    type V = BidModel;

    open spec fn deep_view(&self) -> BidModel {
        self@
    }
}

/// The numbers that the bids offer, in the bids' order.
pub open spec fn offered(bids: Seq<BidModel>) -> Seq<nat> {
    Seq::new(bids.len(), |i: int| bids[i].amount@)
}

/// The transaction that a bid contributes, given what its payload decoded
/// to: none where it did not decode.
pub open spec fn transaction_for(bid: BidModel, decoded: Option<TxFields>) -> Option<TxModel> {
    match decoded {
        Some(fields) => Some(TxModel { fields, payload: bid.data }),
        None => None,
    }
}

/// The report that a bid gives rise to, given what its payload decoded to:
/// one where it did not decode, one where the transaction declares another
/// fee than the bid offers, none otherwise.
pub open spec fn diagnostic_for(bid: BidModel, decoded: Option<TxFields>) -> Option<Diagnostic> {
    match decoded {
        None => Some(Diagnostic::UndecodablePayload { amount: bid.amount }),
        Some(fields) => if declared_fee(fields) as nat == bid.amount@ {
            None
        } else {
            Some(
                Diagnostic::FeeMismatch {
                    hash: fields.hash,
                    declared_fee: declared_fee(fields),
                    amount: bid.amount,
                },
            )
        },
    }
}

/// What became of one bid.
#[derive(Clone, Debug, PartialEq, Eq)]
pub struct Screening {
    /// The transaction that the bid contributes, if its payload decoded.
    pub transaction: Option<DecodedTransaction>,
    /// The report on the bid, if there is anything to report.
    pub diagnostic: Option<Diagnostic>,
}

/// Decides what becomes of a bid whose payload decoded to `decoded`.
///
/// A payload that did not decode drops the bid. A transaction that declares
/// another priority fee than the bid offers is reported and kept.
pub fn screen_bid(bid: Bid, decoded: Option<TxFields>) -> (screening: Screening)
    ensures
        match screening.transaction {
            Some(transaction) => transaction_for(bid@, decoded) == Some(transaction@),
            None => transaction_for(bid@, decoded) is None,
        },
        screening.diagnostic == diagnostic_for(bid@, decoded),
{
    match decoded {
        None => Screening {
            transaction: None,
            diagnostic: Some(Diagnostic::UndecodablePayload { amount: bid.amount }),
        },
        Some(fields) => {
            let fee: u128 = match fields.max_priority_fee {
                Some(fee) => fee,
                None => 0,
            };
            let diagnostic = if bid.amount.equals_u128(fee) {
                None
            } else {
                Some(
                    Diagnostic::FeeMismatch {
                        hash: fields.hash,
                        declared_fee: fee,
                        amount: bid.amount,
                    },
                )
            };
            Screening {
                transaction: Some(DecodedTransaction { fields, payload: bid.data }),
                diagnostic,
            }
        },
    }
}

/// The transaction that a bid contributes.
pub open spec fn accepted(bid: BidModel) -> Option<TxModel> {
    transaction_for(bid, decoded_fields(bid.data))
}

/// The report that a bid gives rise to.
pub open spec fn reported(bid: BidModel) -> Option<Diagnostic> {
    diagnostic_for(bid, decoded_fields(bid.data))
}

/// The transactions that the bids contribute, in the bids' order.
pub open spec fn accepted_of(bids: Seq<BidModel>) -> Seq<TxModel>
    decreases bids.len(),
{
    if bids.len() == 0 {
        Seq::empty()
    } else {
        let earlier = accepted_of(bids.drop_last());
        match accepted(bids.last()) {
            Some(transaction) => earlier.push(transaction),
            None => earlier,
        }
    }
}

/// The reports that the bids give rise to, in the bids' order.
pub open spec fn reported_of(bids: Seq<BidModel>) -> Seq<Diagnostic>
    decreases bids.len(),
{
    if bids.len() == 0 {
        Seq::empty()
    } else {
        let earlier = reported_of(bids.drop_last());
        match reported(bids.last()) {
            Some(diagnostic) => earlier.push(diagnostic),
            None => earlier,
        }
    }
}

/// The bids in the order in which they are served: highest amount first,
/// equal amounts in the order in which they came.
pub open spec fn served(bids: Seq<BidModel>) -> Seq<BidModel> {
    arranged(bids, ranking(offered(bids)))
}

/// The transactions selected from the bids, in the order of inclusion.
pub open spec fn selected(bids: Seq<BidModel>) -> Seq<TxModel> {
    accepted_of(served(bids))
}

/// The reports of a selection, in the order in which the bids are served.
pub open spec fn selection_reports(bids: Seq<BidModel>) -> Seq<Diagnostic> {
    reported_of(served(bids))
}

/// Every bid is served exactly once, and none that offers less is served
/// before one that offers more.
pub proof fn lemma_served_descends(bids: Seq<BidModel>)
    ensures
        served(bids).len() == bids.len(),
        forall|i: int| 0 <= i < bids.len() ==> served(bids).contains(#[trigger] bids[i]),
        forall|k: int, l: int|
            0 <= k < l < bids.len() ==> (#[trigger] served(bids)[k]).amount@ >= (#[trigger] served(
                bids,
            )[l]).amount@,
{
    let amounts = offered(bids);
    let order = ranking(amounts);
    lemma_ranking_descends(amounts);
    assert forall|i: int| 0 <= i < bids.len() implies served(bids).contains(
        #[trigger] bids[i],
    ) by {
        lemma_ranking_covers(amounts, order, i);
        let k = choose|k: int| 0 <= k < order.len() && order[k] == i;
        assert(served(bids)[k] == bids[i]);
    }
    assert forall|k: int, l: int| 0 <= k < l < bids.len() implies (#[trigger] served(
        bids,
    )[k]).amount@ >= (#[trigger] served(bids)[l]).amount@ by {
        assert(0 <= order[k] < amounts.len() && 0 <= order[l] < amounts.len());
        assert(amounts[order[k]] >= amounts[order[l]]);
    }
}

/// What the bids contribute is no longer than the bids, and every bid either
/// contributes a transaction or gives rise to a report.
pub proof fn lemma_accepted_bounds(bids: Seq<BidModel>)
    ensures
        accepted_of(bids).len() <= bids.len(),
        accepted_of(bids).len() + reported_of(bids).len() >= bids.len(),
    decreases bids.len(),
{
    if bids.len() > 0 {
        lemma_accepted_bounds(bids.drop_last());
    }
}

/// Every transaction that the bids contribute has a payload that decodes,
/// to the fields that the transaction holds.
pub proof fn lemma_accepted_decode(bids: Seq<BidModel>, i: int)
    requires
        0 <= i < accepted_of(bids).len(),
    ensures
        decoded_fields(accepted_of(bids)[i].payload) == Some(accepted_of(bids)[i].fields),
    decreases bids.len(),
{
    if bids.len() > 0 {
        let earlier = accepted_of(bids.drop_last());
        if i < earlier.len() {
            lemma_accepted_decode(bids.drop_last(), i);
        }
    }
}

/// A selection is no longer than its bids, and holds no transaction whose
/// payload does not decode.
pub proof fn lemma_selection_is_sound(bids: Seq<BidModel>)
    ensures
        selected(bids).len() <= bids.len(),
        selected(bids).len() + selection_reports(bids).len() >= bids.len(),
        forall|i: int|
            0 <= i < selected(bids).len() ==> decoded_fields((#[trigger] selected(bids)[i]).payload)
                == Some(selected(bids)[i].fields),
{
    lemma_served_descends(bids);
    lemma_accepted_bounds(served(bids));
    assert forall|i: int| 0 <= i < selected(bids).len() implies decoded_fields(
        (#[trigger] selected(bids)[i]).payload,
    ) == Some(selected(bids)[i].fields) by {
        lemma_accepted_decode(served(bids), i);
    }
}

/// The pairs by which the bids are compared, in the bids' order.
pub open spec fn bid_keys(bids: Seq<Bid>) -> Seq<(u128, u128)> {
    Seq::new(bids.len(), |i: int| amount_key(bids[i].amount))
}

/// Whether `order` lists each position of `keys` once, so that the keys do
/// not rise along it and equal keys keep the order of their positions.
pub open spec fn is_stable_descending(keys: Seq<(u128, u128)>, order: Seq<int>) -> bool {
    &&& order.len() == keys.len()
    &&& forall|k: int| 0 <= k < order.len() ==> 0 <= #[trigger] order[k] < keys.len()
    &&& forall|k: int, l: int|
        0 <= k < l < order.len() ==> #[trigger] order[k] != #[trigger] order[l]
    &&& forall|k: int, l: int|
        0 <= k < l < order.len() ==> !pair_less(
            keys[#[trigger] order[k]],
            keys[#[trigger] order[l]],
        )
    &&& forall|k: int, l: int|
        0 <= k < l < order.len() && keys[#[trigger] order[k]] == keys[#[trigger] order[l]]
            ==> order[k] < order[l]
}

/// Whether `sorted` holds the bids of `given`, each once, so that the amounts'
/// halves do not rise along it and bids of equal halves keep the order that
/// they had in `given`.
pub open spec fn is_stable_descending_sort(given: Seq<Bid>, sorted: Seq<Bid>) -> bool {
    exists|order: Seq<int>|
        is_stable_descending(bid_keys(given), order) && sorted == arranged(given, order)
}

/// Sorts the bids with `Itertools::sorted_by_key` of itertools, by the pair
/// of their amount's halves under `std::cmp::Reverse`.
///
/// Not proved, and taken from the documentation of `sorted_by_key` and of
/// `slice::sort_by_key` that it calls: the result holds the same bids, the
/// keys ascend under `Reverse`, so the pairs do not rise, and the sort is
/// stable, so bids of one key keep their order. Pairs compare component by
/// component, the first deciding first.
#[verifier::external_body]
fn sort_by_amount_descending(bids: Vec<Bid>) -> (sorted: Vec<Bid>)
    ensures
        is_stable_descending_sort(bids@, sorted@),
{
    bids.into_iter().sorted_by_key(|bid| Reverse((bid.amount.hi, bid.amount.lo))).collect()
}

/// An order along which the amounts' halves do not rise, and equal halves
/// keep their positions' order, is the ranking of the amounts.
proof fn lemma_stable_descending_is_ranking(bids: Seq<Bid>, order: Seq<int>)
    requires
        is_stable_descending(bid_keys(bids), order),
    ensures
        is_ranking(offered(bids.map_values(|bid: Bid| bid@)), order),
        ranking(offered(bids.map_values(|bid: Bid| bid@))) == order,
        arranged(bids, order).map_values(|bid: Bid| bid@) == served(
            bids.map_values(|bid: Bid| bid@),
        ),
{
    let models = bids.map_values(|bid: Bid| bid@);
    let amounts = offered(models);
    let keys = bid_keys(bids);
    assert forall|k: int, l: int| 0 <= k < l < order.len() implies crate::ranking::precedes(
        amounts,
        #[trigger] order[k],
        #[trigger] order[l],
    ) by {
        let i = order[k];
        let j = order[l];
        assert(0 <= i < keys.len() && 0 <= j < keys.len());
        lemma_halves_decide_value(bids[i].amount, bids[j].amount);
        lemma_halves_decide_value(bids[j].amount, bids[i].amount);
        assert(keys[i] == amount_key(bids[i].amount));
        assert(keys[j] == amount_key(bids[j].amount));
        assert(!pair_less(keys[i], keys[j]));
        assert(amounts[i] == bids[i].amount@);
        assert(amounts[j] == bids[j].amount@);
    }
    lemma_ranking_is(amounts, order);
    assert(arranged(bids, order).map_values(|bid: Bid| bid@) =~= arranged(models, order));
}

/// The outcome of a selection.
#[derive(Debug)]
pub struct Selection {
    /// The selected transactions, in the order of inclusion.
    pub transactions: Transactions,
    /// What was dropped or flagged on the way.
    pub diagnostics: Vec<Diagnostic>,
}

/// Selects the transactions of a cycle from its bids.
///
/// Every bid whose payload decodes contributes its transaction; the others
/// are dropped and reported. The transactions come highest bid first, bids
/// of one amount in the order in which they were given. A transaction that
/// declares another priority fee than its bid offers is reported and kept.
pub fn select(bids: Vec<Bid>) -> (selection: Selection)
    ensures
        selection.transactions@ == selected(bids.deep_view()),
        selection.diagnostics@ == selection_reports(bids.deep_view()),
        selection.transactions@.len() <= bids@.len(),
        selection.transactions@.len() + selection.diagnostics@.len() >= bids@.len(),
{
    let ghost given = bids.deep_view();
    let sorted = sort_by_amount_descending(bids);
    let ghost in_turn = sorted@;
    let ghost models = sorted@.map_values(|bid: Bid| bid@);
    proof {
        let order = choose|order: Seq<int>|
            is_stable_descending(bid_keys(bids@), order) && sorted@ == arranged(bids@, order);
        lemma_stable_descending_is_ranking(bids@, order);
        assert(bids@.map_values(|bid: Bid| bid@) =~= given);
        assert(models == served(given));
    }
    let mut chosen: Vec<DecodedTransaction> = Vec::new();
    let mut diagnostics: Vec<Diagnostic> = Vec::new();
    for bid in iter: sorted
        invariant
            iter.seq() == in_turn,
            models == in_turn.map_values(|bid: Bid| bid@),
            chosen.deep_view() == accepted_of(models.take(iter.index() as int)),
            diagnostics@ == reported_of(models.take(iter.index() as int)),
            chosen@.len() <= iter.index(),
            chosen@.len() + diagnostics@.len() >= iter.index(),
    {
        let ghost at = iter.index() as int;
        let ghost earlier = chosen.deep_view();
        assert(models.take(at + 1).drop_last() =~= models.take(at));
        assert(models.take(at + 1).last() == bid@);
        let decoded = decode_payload(bid.data.as_slice());
        let screening = screen_bid(bid, decoded);
        match screening.transaction {
            Some(transaction) => {
                chosen.push(transaction);
                assert(chosen.deep_view() =~= earlier.push(transaction@));
            },
            None => {},
        }
        match screening.diagnostic {
            Some(diagnostic) => {
                diagnostics.push(diagnostic);
            },
            None => {},
        }
    }
    assert(models.take(models.len() as int) =~= models);
    Selection { transactions: Transactions::new(chosen), diagnostics }
}

} // verus!
