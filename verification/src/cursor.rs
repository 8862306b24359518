//! The single-pass supply of transactions that the block assembler pulls from.

use crate::diagnostics::Diagnostic;
use crate::identity::Address;
use crate::transaction::{DecodedTransaction, TxModel};
use std::collections::VecDeque;
use vstd::prelude::*;

verus! {

/// Whether a waiting transaction cannot be included once the transaction of
/// `sender` at `nonce` was rejected: it is of the same sender and its nonce
/// is not lower.
pub open spec fn depends_on(transaction: TxModel, sender: Seq<u8>, nonce: u64) -> bool {
    transaction.fields.sender@ == sender && transaction.fields.nonce >= nonce
}

/// The test that keeps the transactions which do not depend on the rejected one.
pub open spec fn survives(sender: Seq<u8>, nonce: u64) -> spec_fn(TxModel) -> bool {
    |transaction: TxModel| !depends_on(transaction, sender, nonce)
}

/// What one pull does to a supply: the transaction handed out, if any, and
/// the supply that is left.
pub open spec fn pulled(waiting: Seq<TxModel>) -> (Option<TxModel>, Seq<TxModel>) {
    if waiting.len() == 0 {
        (None, waiting)
    } else {
        (Some(waiting[0]), waiting.drop_first())
    }
}

/// The supply that is left after `count` pulls.
pub open spec fn after_pulls(waiting: Seq<TxModel>, count: nat) -> Seq<TxModel>
    decreases count,
{
    if count == 0 {
        waiting
    } else {
        pulled(after_pulls(waiting, (count - 1) as nat)).1
    }
}

/// What the pull that follows `count` earlier pulls hands out.
pub open spec fn nth_pull(waiting: Seq<TxModel>, count: nat) -> Option<TxModel> {
    pulled(after_pulls(waiting, count)).0
}

/// A supply hands out its transactions one by one, in their order, and nothing
/// from then on: the pull after `count` earlier ones gives the transaction at
/// position `count` while there is one, and `None` ever after.
pub proof fn lemma_supply_exhausts(waiting: Seq<TxModel>, count: nat)
    ensures
        count < waiting.len() ==> nth_pull(waiting, count) == Some(waiting[count as int]),
        count >= waiting.len() ==> nth_pull(waiting, count) is None,
        count <= waiting.len() ==> after_pulls(waiting, count) == waiting.skip(count as int),
        count >= waiting.len() ==> after_pulls(waiting, count).len() == 0,
    decreases count,
{
    if count > 0 {
        let earlier = (count - 1) as nat;
        lemma_supply_exhausts(waiting, earlier);
        if count <= waiting.len() {
            assert(waiting.skip(earlier as int).drop_first() =~= waiting.skip(count as int));
        }
    } else {
        assert(waiting.skip(0) =~= waiting);
    }
}

/// Invalidation withdraws exactly the dependent transactions: a transaction
/// waits afterwards if and only if it waited before and does not depend on
/// the rejected one.
pub proof fn lemma_invalidation_keeps_the_rest(
    waiting: Seq<TxModel>,
    sender: Seq<u8>,
    nonce: u64,
    transaction: TxModel,
)
    ensures
        waiting.filter(survives(sender, nonce)).contains(transaction) <==> (waiting.contains(
            transaction,
        ) && !depends_on(transaction, sender, nonce)),
{
    let keep = survives(sender, nonce);
    let kept = waiting.filter(keep);
    if kept.contains(transaction) {
        let k = choose|k: int| 0 <= k < kept.len() && kept[k] == transaction;
        waiting.lemma_filter_pred(keep, k);
        waiting.lemma_filter_contains_rev(keep, transaction);
    }
    if waiting.contains(transaction) && !depends_on(transaction, sender, nonce) {
        let j = choose|j: int| 0 <= j < waiting.len() && waiting[j] == transaction;
        assert(keep(waiting[j]));
        waiting.lemma_filter_contains(keep, j);
    }
}

/// The transactions of one build cycle, in the order in which they are to be
/// included. Its value is the sequence of those not yet pulled.
#[derive(Debug)]
pub struct Transactions {
    queue: VecDeque<DecodedTransaction>,
}

impl View for Transactions {
    type V = Seq<TxModel>;

    closed spec fn view(&self) -> Seq<TxModel> {
        self.queue@.map_values(|transaction: DecodedTransaction| transaction@)
    }
}

impl Transactions {
    /// A supply that holds the given transactions, the first to be pulled first.
    pub fn new(transactions: Vec<DecodedTransaction>) -> (supply: Transactions)
        ensures
            supply@ == transactions.deep_view(),
    {
        let ghost all = transactions@;
        let mut queue: VecDeque<DecodedTransaction> = VecDeque::new();
        for transaction in iter: transactions
            invariant
                iter.seq() == all,
                queue@ == all.take(iter.index() as int),
        {
            queue.push_back(transaction);
            assert(all.take(iter.index() + 1) =~= all.take(iter.index() as int).push(
                all[iter.index() as int],
            ));
        }
        assert(all.take(all.len() as int) =~= all);
        let supply = Transactions { queue };
        assert(supply@ =~= transactions.deep_view());
        supply
    }

    /// Removes and returns the transaction at the front, or returns `None`
    /// when none is left.
    pub fn next(&mut self) -> (handed: Option<DecodedTransaction>)
        ensures
            final(self)@ == pulled(old(self)@).1,
            match handed {
                Some(transaction) => pulled(old(self)@).0 == Some(transaction@),
                None => pulled(old(self)@).0 is None,
            },
            final(self)@.len() <= old(self)@.len(),
    {
        let handed = self.queue.pop_front();
        proof {
            if handed is Some {
                assert(self@ =~= old(self)@.drop_first());
            }
        }
        handed
    }

    /// Withdraws every waiting transaction of `sender` whose nonce is `nonce`
    /// or higher, and keeps the others in their order. Reports the call,
    /// whether or not anything was withdrawn.
    pub fn mark_invalid(&mut self, sender: Address, nonce: u64) -> (report: Diagnostic)
        ensures
            final(self)@ == old(self)@.filter(survives(sender@, nonce)),
            final(self)@.len() <= old(self)@.len(),
            report == (Diagnostic::MarkedInvalid {
                sender,
                nonce,
                withdrawn: (old(self)@.len() - final(self)@.len()) as usize,
            }),
    {
        let ghost before = self@;
        let ghost keep = survives(sender@, nonce);
        let ghost mut seen: int = 0;
        let total = self.queue.len();
        let mut kept: VecDeque<DecodedTransaction> = VecDeque::new();
        let mut withdrawn: usize = 0;
        assert(before.skip(0) =~= before);
        assert(before.take(0).filter(keep) =~= Seq::<TxModel>::empty()) by {
            reveal(Seq::filter);
        }
        while self.queue.len() > 0
            invariant
                0 <= seen <= before.len() == total,
                keep == survives(sender@, nonce),
                self@ == before.skip(seen),
                self@.len() == self.queue@.len(),
                kept@.map_values(|transaction: DecodedTransaction| transaction@) == before.take(
                    seen,
                ).filter(keep),
                withdrawn + kept@.len() == seen,
            decreases self.queue@.len(),
        {
            let ghost waiting = self@;
            assert(waiting[0] == self.queue@[0]@);
            if let Some(transaction) = self.queue.pop_front() {
                proof {
                    assert(self@ =~= waiting.drop_first());
                    assert(before.skip(seen).drop_first() =~= before.skip(seen + 1));
                    assert(before.take(seen + 1) =~= before.take(seen).push(before[seen]));
                    before.take(seen).lemma_filter_push(before[seen], keep);
                }
                let same_sender = transaction.fields.sender.same_as(&sender);
                if same_sender && transaction.fields.nonce >= nonce {
                    withdrawn = withdrawn + 1;
                } else {
                    let ghost earlier = kept@;
                    kept.push_back(transaction);
                    assert(kept@.map_values(|transaction: DecodedTransaction| transaction@)
                        =~= earlier.map_values(
                        |transaction: DecodedTransaction| transaction@,
                    ).push(transaction@));
                }
                proof {
                    seen = seen + 1;
                }
            }
        }
        assert(before.take(seen) =~= before);
        self.queue = kept;
        Diagnostic::MarkedInvalid { sender, nonce, withdrawn }
    }

    /// The number of transactions not yet pulled.
    pub fn len(&self) -> (count: usize)
        ensures
            count == self@.len(),
    {
        self.queue.len()
    }
}

} // verus!
