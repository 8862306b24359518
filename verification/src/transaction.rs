//! Signed transactions as the builder sees them: the few fields that
//! selection and invalidation read, beside the payload they were read from.

use crate::identity::{Address, TxHash};
use alloy_consensus::transaction::Recovered;
use alloy_consensus::Transaction;
use alloy_rlp::Decodable;
use op_alloy_consensus::OpTxEnvelope;
use vstd::prelude::*;

verus! {

/// What the builder reads off a signed transaction.
#[derive(Clone, Copy, Debug, PartialEq, Eq)]
pub struct TxFields {
    /// The account that signed the transaction.
    pub sender: Address,
    /// The sender's sequence number for this transaction.
    pub nonce: u64,
    /// The transaction's hash.
    pub hash: TxHash,
    /// The priority fee per gas that the transaction declares, where its
    /// kind has one.
    pub max_priority_fee: Option<u128>,
}

/// A transaction recovered from a bid, with the payload it came in.
#[derive(Clone, Debug, PartialEq, Eq)]
pub struct DecodedTransaction {
    /// The fields read off the payload.
    pub fields: TxFields,
    /// The encoded transaction, as the bid carried it.
    pub payload: Vec<u8>,
}

/// The mathematical value of a [`DecodedTransaction`].
pub struct TxModel {
    /// The fields read off the payload.
    pub fields: TxFields,
    /// The bytes of the encoded transaction.
    pub payload: Seq<u8>,
}

impl View for DecodedTransaction {
    type V = TxModel;

    open spec fn view(&self) -> TxModel {
        TxModel { fields: self.fields, payload: self.payload@ }
    }
}

impl DeepView for DecodedTransaction {
    type V = TxModel;

    open spec fn deep_view(&self) -> TxModel {
        self@
    }
}

impl DecodedTransaction {
    /// The length of the encoded transaction in bytes.
    pub fn encoded_length(&self) -> (length: usize)
        ensures
            length == self@.payload.len(),
    {
        self.payload.len()
    }
}

/// The priority fee that a transaction declares, zero where its kind has none.
pub open spec fn declared_fee(fields: TxFields) -> u128 {
    match fields.max_priority_fee {
        Some(fee) => fee,
        None => 0,
    }
}

/// The fields of the signed transaction that `payload` encodes, or `None`
/// where `payload` encodes none or its signer cannot be recovered.
pub uninterp spec fn decoded_fields(payload: Seq<u8>) -> Option<TxFields>;

/// Decodes a payload with `Decodable::decode` of alloy-rlp, at the type
/// `Recovered<OpTxEnvelope>`, and reads the signer, nonce, hash and priority
/// fee off the result.
///
/// Not proved: that the result is the one that `decoded_fields` names, which
/// claims no more than that equal payloads decode alike.
#[verifier::external_body]
pub(crate) fn decode_payload(payload: &[u8]) -> (decoded: Option<TxFields>)
    ensures
        decoded == decoded_fields(payload@),
{
    let mut rest: &[u8] = payload;
    match Recovered::<OpTxEnvelope>::decode(&mut rest) {
        Ok(tx) => Some(
            TxFields {
                sender: Address { bytes: tx.signer().into_array() },
                nonce: tx.nonce(),
                hash: TxHash { bytes: tx.tx_hash().0 },
                max_priority_fee: tx.max_priority_fee_per_gas(),
            },
        ),
        Err(_) => None,
    }
}

} // verus!
