use alloy_consensus::transaction::SignerRecoverable;
use alloy_consensus::{SignableTransaction, TxEip1559, TxLegacy};
use alloy_primitives::{Address as WireAddress, Bytes, Signature, TxKind, B256, U256};
use alloy_rlp::Encodable;
use op_alloy_consensus::OpTxEnvelope;
use op_rbuilder::amount::Amount;
use op_rbuilder::diagnostics::Diagnostic;
use op_rbuilder::identity::{Address, TxHash};
use op_rbuilder::pipeline::{screen_bid, select, Bid, Screening};
use op_rbuilder::transaction::{DecodedTransaction, TxFields};

fn signature() -> Signature {
    let r: B256 =
        "0x840cfc572845f5786e702984c2a582528cad4b49b2a10b9db1be7fca90058565".parse().unwrap();
    let s: B256 =
        "0x25e7109ceb98168d95b09b18bbf6b685130e0562f233877d492b94eee0c5b6d1".parse().unwrap();
    Signature::from_scalars_and_parity(r, s, false)
}

fn envelope(nonce: u64, fee: u128) -> OpTxEnvelope {
    let tx = TxEip1559 {
        chain_id: 10,
        nonce,
        gas_limit: 21_000,
        max_fee_per_gas: 1_000_000_000 + fee,
        max_priority_fee_per_gas: fee,
        to: TxKind::Call(WireAddress::ZERO),
        value: U256::ZERO,
        access_list: Default::default(),
        input: Bytes::new(),
    };
    OpTxEnvelope::Eip1559(tx.into_signed(signature()))
}

fn encoded(envelope: &OpTxEnvelope) -> Vec<u8> {
    let mut out = Vec::new();
    envelope.encode(&mut out);
    out
}

fn payload(nonce: u64, fee: u128) -> Vec<u8> {
    encoded(&envelope(nonce, fee))
}

fn fields_of(envelope: &OpTxEnvelope, fee: Option<u128>, nonce: u64) -> TxFields {
    TxFields {
        sender: Address::new(envelope.recover_signer().unwrap().into_array()),
        nonce,
        hash: TxHash::new(envelope.tx_hash().0),
        max_priority_fee: fee,
    }
}

fn bid(amount: u128, nonce: u64, fee: u128) -> Bid {
    Bid { amount: Amount::from_u128(amount), data: payload(nonce, fee) }
}

fn drain(selection: op_rbuilder::pipeline::Selection) -> Vec<DecodedTransaction> {
    let mut transactions = selection.transactions;
    let mut out = Vec::new();
    while let Some(transaction) = transactions.next() {
        out.push(transaction);
    }
    out
}

fn some_fields(fee: Option<u128>) -> TxFields {
    TxFields {
        sender: Address::new([7u8; 20]),
        nonce: 4,
        hash: TxHash::new([9u8; 32]),
        max_priority_fee: fee,
    }
}

#[test]
fn a_known_transaction_decodes_to_its_signer_and_hash() {
    let tx = TxEip1559 {
        chain_id: 1,
        nonce: 0x42,
        gas_limit: 44386,
        max_fee_per_gas: 0x4a817c800,
        max_priority_fee_per_gas: 0x3b9aca00,
        to: TxKind::Call("0x6069a6c32cf691f5982febae4faf8a6f3ab2f0f6".parse().unwrap()),
        value: U256::ZERO,
        access_list: Default::default(),
        input: alloy_primitives::hex::decode(
            "a22cb4650000000000000000000000005eee75727d804a2b13038928d36f8b188945a57a0000000000000000000000000000000000000000000000000000000000000000",
        )
        .unwrap()
        .into(),
    };
    let data = encoded(&OpTxEnvelope::Eip1559(tx.into_signed(signature())));
    let selection = select(vec![Bid { amount: Amount::from_u128(0x3b9aca00), data: data.clone() }]);
    assert!(selection.diagnostics.is_empty());
    let transactions = drain(selection);
    assert_eq!(transactions.len(), 1);
    let signer: WireAddress = "0xdd6b8b3dc6b7ad97db52f08a275ff4483e024cea".parse().unwrap();
    let hash: B256 =
        "0x0ec0b6a2df4d87424e5f6ad2a654e27aaeb7dac20ae9e8385cc09087ad532ee0".parse().unwrap();
    assert_eq!(transactions[0].fields.sender, Address::new(signer.into_array()));
    assert_eq!(transactions[0].fields.hash, TxHash::new(hash.0));
    assert_eq!(transactions[0].fields.nonce, 0x42);
    assert_eq!(transactions[0].fields.max_priority_fee, Some(0x3b9aca00));
    assert_eq!(transactions[0].payload, data);
    assert_eq!(transactions[0].encoded_length(), data.len());
}

#[test]
fn bids_are_served_highest_amount_first() {
    let selection = select(vec![bid(10, 0, 10), bid(5, 1, 5), bid(20, 2, 20)]);
    assert!(selection.diagnostics.is_empty());
    assert_eq!(selection.transactions.len(), 3);
    let transactions = drain(selection);
    let fees: Vec<Option<u128>> =
        transactions.iter().map(|transaction| transaction.fields.max_priority_fee).collect();
    assert_eq!(fees, vec![Some(20), Some(10), Some(5)]);
    assert_eq!(transactions[0].fields, fields_of(&envelope(2, 20), Some(20), 2));
    assert_eq!(transactions[1].fields, fields_of(&envelope(0, 10), Some(10), 0));
    assert_eq!(transactions[2].fields, fields_of(&envelope(1, 5), Some(5), 1));
    assert_eq!(transactions[0].payload, payload(2, 20));
    assert_eq!(transactions[1].payload, payload(0, 10));
    assert_eq!(transactions[2].payload, payload(1, 5));
}

#[test]
fn a_malformed_bid_is_dropped_and_reported() {
    let malformed = Bid { amount: Amount::from_u128(20), data: vec![0xff, 0x00, 0x01] };
    let selection = select(vec![bid(10, 0, 10), malformed, bid(30, 1, 30)]);
    assert_eq!(
        selection.diagnostics,
        vec![Diagnostic::UndecodablePayload { amount: Amount::from_u128(20) }]
    );
    let transactions = drain(selection);
    assert_eq!(transactions.len(), 2);
    assert_eq!(transactions[0].fields, fields_of(&envelope(1, 30), Some(30), 1));
    assert_eq!(transactions[1].fields, fields_of(&envelope(0, 10), Some(10), 0));
}

#[test]
fn an_empty_payload_is_dropped() {
    let selection = select(vec![Bid { amount: Amount::from_u128(1), data: Vec::new() }]);
    assert_eq!(selection.transactions.len(), 0);
    assert_eq!(
        selection.diagnostics,
        vec![Diagnostic::UndecodablePayload { amount: Amount::from_u128(1) }]
    );
}

#[test]
fn a_truncated_payload_is_dropped() {
    let mut data = payload(0, 10);
    data.truncate(data.len() - 1);
    let selection = select(vec![Bid { amount: Amount::from_u128(10), data }]);
    assert_eq!(selection.transactions.len(), 0);
    assert_eq!(selection.diagnostics.len(), 1);
}

#[test]
fn no_bids_give_no_transactions() {
    let selection = select(Vec::new());
    assert_eq!(selection.transactions.len(), 0);
    assert!(selection.diagnostics.is_empty());
}

#[test]
fn equal_amounts_keep_their_order() {
    let selection = select(vec![bid(7, 0, 7), bid(9, 1, 9), bid(7, 2, 7), bid(7, 3, 7), bid(9, 4, 9)]);
    let nonces: Vec<u64> =
        drain(selection).iter().map(|transaction| transaction.fields.nonce).collect();
    assert_eq!(nonces, vec![1, 4, 0, 2, 3]);
}

#[test]
fn amounts_beyond_128_bits_come_first() {
    let wide = Bid { amount: Amount { hi: 1, lo: 0 }, data: payload(0, 0) };
    let narrow = Bid { amount: Amount { hi: 0, lo: u128::MAX }, data: payload(1, u128::MAX >> 1) };
    let selection = select(vec![narrow, wide]);
    let nonces: Vec<u64> =
        drain(selection).iter().map(|transaction| transaction.fields.nonce).collect();
    assert_eq!(nonces, vec![0, 1]);
}

#[test]
fn a_fee_that_differs_from_the_bid_is_reported_and_kept() {
    let selection = select(vec![bid(9, 0, 10), bid(12, 1, 12)]);
    let expected = fields_of(&envelope(0, 10), Some(10), 0);
    assert_eq!(
        selection.diagnostics,
        vec![Diagnostic::FeeMismatch {
            hash: expected.hash,
            declared_fee: 10,
            amount: Amount::from_u128(9),
        }]
    );
    let transactions = drain(selection);
    assert_eq!(transactions.len(), 2);
    assert_eq!(transactions[0].fields.nonce, 1);
    assert_eq!(transactions[1].fields, expected);
}

#[test]
fn a_transaction_without_a_priority_fee_declares_zero() {
    let tx = TxLegacy {
        chain_id: Some(10),
        nonce: 3,
        gas_price: 1_000,
        gas_limit: 21_000,
        to: TxKind::Call(WireAddress::ZERO),
        value: U256::ZERO,
        input: Bytes::new(),
    };
    let legacy = OpTxEnvelope::Legacy(tx.into_signed(signature()));
    let matching = Bid { amount: Amount::zero(), data: encoded(&legacy) };
    let differing = Bid { amount: Amount::from_u128(1_000), data: encoded(&legacy) };
    let selection = select(vec![matching, differing]);
    assert_eq!(
        selection.diagnostics,
        vec![Diagnostic::FeeMismatch {
            hash: TxHash::new(legacy.tx_hash().0),
            declared_fee: 0,
            amount: Amount::from_u128(1_000),
        }]
    );
    let transactions = drain(selection);
    assert_eq!(transactions.len(), 2);
    assert_eq!(transactions[0].fields, fields_of(&legacy, None, 3));
    assert_eq!(transactions[1].fields, fields_of(&legacy, None, 3));
}

#[test]
fn screening_keeps_a_matching_bid_without_report() {
    let fields = some_fields(Some(10));
    let screening = screen_bid(Bid { amount: Amount::from_u128(10), data: vec![1, 2, 3] }, Some(fields));
    assert_eq!(
        screening,
        Screening {
            transaction: Some(DecodedTransaction { fields, payload: vec![1, 2, 3] }),
            diagnostic: None,
        }
    );
}

#[test]
fn screening_reports_a_differing_fee() {
    let fields = some_fields(Some(10));
    let screening = screen_bid(Bid { amount: Amount::from_u128(11), data: vec![1] }, Some(fields));
    assert_eq!(
        screening,
        Screening {
            transaction: Some(DecodedTransaction { fields, payload: vec![1] }),
            diagnostic: Some(Diagnostic::FeeMismatch {
                hash: fields.hash,
                declared_fee: 10,
                amount: Amount::from_u128(11),
            }),
        }
    );
}

#[test]
fn screening_reads_a_missing_fee_as_zero() {
    let fields = some_fields(None);
    let kept = screen_bid(Bid { amount: Amount::zero(), data: vec![1] }, Some(fields));
    assert_eq!(kept.diagnostic, None);
    let flagged = screen_bid(Bid { amount: Amount { hi: 1, lo: 0 }, data: vec![1] }, Some(fields));
    assert_eq!(
        flagged.diagnostic,
        Some(Diagnostic::FeeMismatch {
            hash: fields.hash,
            declared_fee: 0,
            amount: Amount { hi: 1, lo: 0 },
        })
    );
}

#[test]
fn screening_drops_an_undecoded_bid() {
    let screening = screen_bid(Bid { amount: Amount::from_u128(3), data: vec![1] }, None);
    assert_eq!(
        screening,
        Screening {
            transaction: None,
            diagnostic: Some(Diagnostic::UndecodablePayload { amount: Amount::from_u128(3) }),
        }
    );
}

#[test]
fn selection_never_grows() {
    let bids = vec![bid(1, 0, 1), Bid { amount: Amount::from_u128(2), data: vec![0x80] }, bid(3, 1, 4)];
    let given = bids.len();
    let selection = select(bids);
    assert!(selection.transactions.len() <= given);
    assert!(selection.transactions.len() + selection.diagnostics.len() >= given);
}
