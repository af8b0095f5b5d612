use evm_rpc_compat::decoder::{
    accept, decode, wire_kind, DecodeError, DecodedTransaction, TransactionKind,
};
use evm_rpc_compat::primitives::H256;

fn sample_signature() -> ethereum::TransactionSignature {
    let mut r = [0u8; 32];
    r[31] = 7;
    let mut s = [0u8; 32];
    s[0] = 0x11;
    s[31] = 9;
    ethereum::TransactionSignature::new(38, ethereum_types::H256(r), ethereum_types::H256(s))
        .expect("a signature within range")
}

fn sample_legacy() -> ethereum::LegacyTransaction {
    ethereum::LegacyTransaction {
        nonce: ethereum_types::U256::from(12u64),
        gas_price: ethereum_types::U256::from(20_000_000_000u64),
        gas_limit: ethereum_types::U256::from(21_000u64),
        action: ethereum::TransactionAction::Call(ethereum_types::H160([0x35u8; 20])),
        value: ethereum_types::U256::from(1_000_000u64),
        input: vec![0xde, 0xad, 0xbe, 0xef],
        signature: sample_signature(),
    }
}

fn sample_eip1559() -> ethereum::EIP1559Transaction {
    let mut r = [0u8; 32];
    r[31] = 3;
    let mut s = [0u8; 32];
    s[31] = 4;
    ethereum::EIP1559Transaction {
        chain_id: 5,
        nonce: ethereum_types::U256::from(7u64),
        max_priority_fee_per_gas: ethereum_types::U256::from(2u64),
        max_fee_per_gas: ethereum_types::U256::from(100u64),
        gas_limit: ethereum_types::U256::from(21_000u64),
        action: ethereum::TransactionAction::Create,
        value: ethereum_types::U256::zero(),
        input: vec![1, 2, 3],
        access_list: vec![ethereum::AccessListItem {
            address: ethereum_types::H160([9u8; 20]),
            storage_keys: vec![ethereum_types::H256([1u8; 32])],
        }],
        odd_y_parity: true,
        r: ethereum_types::H256(r),
        s: ethereum_types::H256(s),
    }
}

fn typed_wire(version: u8, body: &[u8]) -> Vec<u8> {
    let mut wire = vec![version];
    wire.extend_from_slice(body);
    wire
}

#[test]
fn empty_buffer_is_refused_as_empty() {
    assert_eq!(decode(&[]), Err(DecodeError::Empty));
}

#[test]
fn legacy_round_trip_keeps_the_reference_hash() {
    let transaction = sample_legacy();
    let wire = rlp::encode(&transaction).to_vec();
    assert!(wire[0] > 0x7f);
    let decoded = decode(&wire).expect("a well-formed legacy transaction");
    assert!(matches!(decoded, DecodedTransaction::Legacy { .. }));
    assert_eq!(decoded.kind(), TransactionKind::Legacy);
    assert!(decoded.is_legacy());
    assert_eq!(decoded.hash(), H256 { bytes: transaction.hash().0 });
    assert_eq!(
        decoded.hash(),
        H256 { bytes: ethereum::TransactionV2::Legacy(transaction).hash().0 }
    );
    assert_eq!(decoded.payload(), &wire[..]);
}

#[test]
fn typed_transaction_is_wrapped_before_decoding() {
    let transaction = sample_eip1559();
    let wire = typed_wire(2, &rlp::encode(&transaction));
    let decoded = decode(&wire).expect("a well-formed typed transaction");
    assert!(matches!(decoded, DecodedTransaction::Typed { .. }));
    assert_eq!(decoded.kind(), TransactionKind::Typed);
    assert!(!decoded.is_legacy());
    assert_eq!(decoded.hash(), H256 { bytes: transaction.hash().0 });
    assert_eq!(decoded.payload(), &wire[..]);
}

#[test]
fn decoding_is_reproducible() {
    let wire = rlp::encode(&sample_legacy()).to_vec();
    assert_eq!(decode(&wire), decode(&wire));
}

#[test]
fn malformed_legacy_bytes_are_refused() {
    assert_eq!(decode(&[0xc0]), Err(DecodeError::Malformed));
    assert_eq!(decode(&[0xff, 0x01, 0x02]), Err(DecodeError::Malformed));
    let mut wire = rlp::encode(&sample_legacy()).to_vec();
    wire.truncate(wire.len() - 1);
    assert_eq!(decode(&wire), Err(DecodeError::Malformed));
}

#[test]
fn malformed_typed_bytes_are_refused() {
    assert_eq!(decode(&[0x00]), Err(DecodeError::Malformed));
    assert_eq!(decode(&[0x02]), Err(DecodeError::Malformed));
    assert_eq!(decode(&[0x03, 0xc0]), Err(DecodeError::Malformed));
    assert_eq!(decode(&[0x7f, 0x01]), Err(DecodeError::Malformed));
}

#[test]
fn legacy_bytes_under_a_typed_version_byte_are_not_legacy() {
    let body = rlp::encode(&sample_legacy()).to_vec();
    assert_eq!(decode(&typed_wire(1, &body)), Err(DecodeError::Malformed));
}

#[test]
fn short_typed_transaction_is_wrapped_with_a_short_prefix() {
    let mut transaction = sample_eip1559();
    transaction.access_list = Vec::new();
    let wire = typed_wire(2, &rlp::encode(&transaction));
    assert!(wire.len() <= 55);
    let decoded = decode(&wire).expect("a well-formed typed transaction");
    assert_eq!(decoded.kind(), TransactionKind::Typed);
    assert_eq!(decoded.hash(), H256 { bytes: transaction.hash().0 });
}

#[test]
fn access_list_transaction_is_typed() {
    let source = sample_eip1559();
    let transaction = ethereum::EIP2930Transaction {
        chain_id: source.chain_id,
        nonce: source.nonce,
        gas_price: source.max_fee_per_gas,
        gas_limit: source.gas_limit,
        action: source.action,
        value: source.value,
        input: vec![0u8; 300],
        access_list: source.access_list,
        odd_y_parity: false,
        r: source.r,
        s: source.s,
    };
    let wire = typed_wire(1, &rlp::encode(&transaction));
    assert!(wire.len() > 255);
    let decoded = decode(&wire).expect("a well-formed typed transaction");
    assert!(matches!(decoded, DecodedTransaction::Typed { .. }));
    assert_eq!(decoded.hash(), H256 { bytes: transaction.hash().0 });
    assert_eq!(
        decoded.hash(),
        H256 { bytes: ethereum::TransactionV2::EIP2930(transaction).hash().0 }
    );
}

#[test]
fn a_typed_transaction_under_the_wrong_version_is_refused() {
    let body = rlp::encode(&sample_eip1559()).to_vec();
    assert_eq!(decode(&typed_wire(1, &body)), Err(DecodeError::Malformed));
    assert!(decode(&typed_wire(2, &body)).is_ok());
}

#[test]
fn the_family_is_read_off_the_first_byte() {
    assert_eq!(wire_kind(&[]), None);
    assert_eq!(wire_kind(&[0x00]), Some(TransactionKind::Typed));
    assert_eq!(wire_kind(&[0x7f, 0xff]), Some(TransactionKind::Typed));
    assert_eq!(wire_kind(&[0x80]), Some(TransactionKind::Legacy));
    assert_eq!(wire_kind(&[0xff]), Some(TransactionKind::Legacy));
}

#[test]
fn the_codec_answer_decides_acceptance() {
    let hash = H256 { bytes: [7; 32] };
    assert_eq!(
        accept(TransactionKind::Legacy, &[0xf8, 1], Some(hash)),
        Ok(DecodedTransaction::Legacy { hash, payload: vec![0xf8, 1] })
    );
    assert_eq!(
        accept(TransactionKind::Typed, &[2, 1], Some(hash)),
        Ok(DecodedTransaction::Typed { hash, payload: vec![2, 1] })
    );
    assert_eq!(accept(TransactionKind::Legacy, &[0xf8, 1], None), Err(DecodeError::Malformed));
    assert_eq!(accept(TransactionKind::Typed, &[2, 1], None), Err(DecodeError::Malformed));
}

#[test]
fn arbitrary_buffers_are_decoded_or_refused() {
    let mut state: u64 = 0x2545_f491_4f6c_dd1d;
    let mut next = move || {
        state ^= state << 13;
        state ^= state >> 7;
        state ^= state << 17;
        state
    };
    let valid = rlp::encode(&sample_legacy()).to_vec();
    for round in 0..4000u32 {
        let buffer: Vec<u8> = if round % 4 == 0 {
            let mut damaged = valid.clone();
            let at = (next() as usize) % damaged.len();
            damaged[at] = next() as u8;
            damaged
        } else {
            let len = (next() % 80) as usize;
            (0..len).map(|_| next() as u8).collect()
        };
        match decode(&buffer) {
            Ok(decoded) => {
                assert_eq!(decoded.payload(), &buffer[..]);
                assert_eq!(decoded.is_legacy(), buffer[0] > 0x7f);
            },
            Err(DecodeError::Empty) => assert!(buffer.is_empty()),
            Err(DecodeError::Malformed) => assert!(!buffer.is_empty()),
        }
    }
    for first in 0..=255u8 {
        for fill in [0x00u8, 0x7f, 0x80, 0xb8, 0xbf, 0xc0, 0xf8, 0xff] {
            for len in [1usize, 2, 9, 10, 56, 57] {
                let mut buffer = vec![fill; len];
                buffer[0] = first;
                let decoded = decode(&buffer);
                assert_ne!(decoded, Err(DecodeError::Empty));
            }
        }
    }
}
