use alloy::consensus::transaction::RlpEcdsaDecodableTx;
use alloy::consensus::TxLegacy;
use alloy::primitives::{TxKind, U256};
use deposit_oracle::commitment::parse_tx_fields;
use deposit_oracle::error::{Error, Field};
use deposit_oracle::header::Header;
use deposit_oracle::pipeline::{handle_deposit, handle_request, init, process_deposit};

fn test_seed() -> Vec<u8> {
    (0u8..64).collect()
}

fn test_commitment() -> Vec<String> {
    vec![
        "1",
        "0",
        "1000000000",
        "21000",
        "0x0000000000000000000000000000000000000001",
        "0",
        "0x",
    ]
    .into_iter()
    .map(String::from)
    .collect()
}

const ZERO_ADDRESS: &str = "0x0000000000000000000000000000000000000000";

/// Asks the pipeline for the derived deposit address of a commitment by
/// offering a wrong address and reading the mismatch error.
fn derived_address_for(seed: &[u8], params: &Vec<String>) -> String {
    match handle_deposit(seed, ZERO_ADDRESS, params) {
        Err(Error::AddressMismatch { derived, .. }) => derived,
        other => panic!("expected an address mismatch, got {:?}", other),
    }
}

#[test]
fn positive_path_signs_and_recovers() {
    let seed = test_seed();
    let params = test_commitment();
    let derived = derived_address_for(&seed, &params);
    let tx_hex = handle_deposit(&seed, &derived, &params).unwrap();
    assert!(tx_hex.starts_with("0x"));
    let raw = hex::decode(&tx_hex[2..]).unwrap();
    let signed = TxLegacy::rlp_decode_signed(&mut raw.as_slice()).unwrap();
    let tx = signed.tx();
    assert_eq!(tx.nonce, 0);
    assert_eq!(tx.chain_id, Some(1));
    assert_eq!(tx.gas_price, 1_000_000_000);
    assert_eq!(tx.gas_limit, 21_000);
    assert_eq!(tx.value, U256::ZERO);
    assert_eq!(
        tx.to,
        TxKind::Call("0x0000000000000000000000000000000000000001".parse().unwrap())
    );
    assert!(tx.input.is_empty());
    let signer = signed.recover_signer().unwrap();
    assert_eq!(hex::encode(signer.as_slice()), derived);
}

#[test]
fn claimed_address_is_case_insensitive() {
    let seed = test_seed();
    let params = test_commitment();
    let derived = derived_address_for(&seed, &params);
    let upper = format!("0x{}", derived.to_uppercase());
    assert!(handle_deposit(&seed, &upper, &params).is_ok());
}

#[test]
fn flipped_address_is_rejected_without_signing() {
    let seed = test_seed();
    let params = test_commitment();
    let derived = derived_address_for(&seed, &params);
    let mut chars: Vec<char> = derived.chars().collect();
    let last = chars.len() - 1;
    chars[last] = if chars[last] == '0' { '1' } else { '0' };
    let flipped: String = chars.into_iter().collect();
    match handle_deposit(&seed, &flipped, &params) {
        Err(Error::AddressMismatch { derived: d, claimed }) => {
            assert_eq!(d, derived);
            assert_eq!(claimed, flipped);
        }
        other => panic!("expected an address mismatch, got {:?}", other),
    }
}

#[test]
fn pipeline_is_deterministic() {
    let seed = test_seed();
    let params = test_commitment();
    let derived1 = derived_address_for(&seed, &params);
    let derived2 = derived_address_for(&seed, &params);
    assert_eq!(derived1, derived2);
    let tx1 = handle_deposit(&seed, &derived1, &params).unwrap();
    let tx2 = handle_deposit(&seed, &derived2, &params).unwrap();
    assert_eq!(tx1, tx2);
}

#[test]
fn different_commitments_use_different_keys() {
    let seed = test_seed();
    let mut other = test_commitment();
    other[1] = "1".to_string();
    assert_ne!(
        derived_address_for(&seed, &test_commitment()),
        derived_address_for(&seed, &other)
    );
}

#[test]
fn wrong_seed_length_is_rejected() {
    assert_eq!(
        handle_deposit(&[0u8; 63], ZERO_ADDRESS, &test_commitment()),
        Err(Error::InvalidSeedLength)
    );
}

#[test]
fn malformed_claimed_address_is_rejected() {
    let r = handle_deposit(&test_seed(), "not-an-address", &test_commitment());
    assert_eq!(r, Err(Error::InvalidAddressFormat));
}

#[test]
fn short_commitment_is_rejected_before_the_gate() {
    let seed = test_seed();
    let mut params = test_commitment();
    params.pop();
    // the claimed address plays no part: the shape is checked first,
    // so a bad or mismatching address never masks the shape error
    assert_eq!(
        handle_deposit(&seed, ZERO_ADDRESS, &params),
        Err(Error::InvalidCommitmentShape)
    );
    assert_eq!(
        handle_deposit(&seed, "not-an-address", &params),
        Err(Error::InvalidCommitmentShape)
    );
}

#[test]
fn long_commitment_is_rejected_before_the_gate() {
    let seed = test_seed();
    let mut params = test_commitment();
    params.push("extra".to_string());
    assert_eq!(
        handle_deposit(&seed, ZERO_ADDRESS, &params),
        Err(Error::InvalidCommitmentShape)
    );
}

#[test]
fn field_errors_name_the_offending_field() {
    let seed = test_seed();
    let cases: Vec<(usize, &str, Field)> = vec![
        (0, "x", Field::ChainId),
        (1, "-1", Field::Nonce),
        (2, "", Field::GasPrice),
        (3, "21k", Field::GasLimit),
        (4, "0x1234", Field::To),
        (5, "one", Field::Value),
        (6, "0xf", Field::Calldata),
    ];
    for (idx, bad, field) in cases {
        let mut params = test_commitment();
        params[idx] = bad.to_string();
        let derived = derived_address_for(&seed, &params);
        assert_eq!(
            handle_deposit(&seed, &derived, &params),
            Err(Error::FieldParseError(field)),
            "field index {}",
            idx
        );
    }
}

#[test]
fn parse_tx_fields_shape_and_values() {
    let params = test_commitment();
    let fields = parse_tx_fields(&params).unwrap();
    assert_eq!(fields.chain_id, 1);
    assert_eq!(fields.nonce, 0);
    assert_eq!(fields.gas_price, 1_000_000_000);
    assert_eq!(fields.gas_limit, 21_000);
    assert_eq!(hex::encode(&fields.to), "0000000000000000000000000000000000000001");
    assert_eq!(fields.value, 0);
    assert!(fields.calldata.is_empty());
    let mut short = params.clone();
    short.pop();
    assert!(matches!(parse_tx_fields(&short), Err(Error::InvalidCommitmentShape)));
}

fn evm_header(protocol: u32, command: u32) -> Header {
    Header { version: 0, protocol, chain_id: 0x2105, command }
}

fn cbor_payload(items: &[String]) -> Vec<u8> {
    let refs: Vec<&str> = items.iter().map(|s| s.as_str()).collect();
    minicbor::to_vec(&refs).unwrap()
}

#[test]
fn process_deposit_decodes_and_gates() {
    let seed = test_seed();
    let mut items = vec![ZERO_ADDRESS.to_string()];
    items.extend(test_commitment());
    let payload = cbor_payload(&items);
    let r = process_deposit(&seed, &evm_header(1, 1), &payload);
    assert!(matches!(r, Err(Error::AddressMismatch { .. })));
}

#[test]
fn process_deposit_positive_path() {
    let seed = test_seed();
    let params = test_commitment();
    let derived = format!("0x{}", derived_address_for(&seed, &params));
    let mut items = vec![derived];
    items.extend(params.clone());
    let payload = cbor_payload(&items);
    let r = process_deposit(&seed, &evm_header(1, 1), &payload).unwrap();
    assert_eq!(Ok(r), handle_deposit(&seed, &items[0], &params));
}

#[test]
fn process_deposit_rejects_unknown_protocol() {
    let seed = test_seed();
    let mut items = vec![ZERO_ADDRESS.to_string()];
    items.extend(test_commitment());
    let payload = cbor_payload(&items);
    assert_eq!(
        process_deposit(&seed, &evm_header(2, 1), &payload),
        Err(Error::UnsupportedProtocol)
    );
}

#[test]
fn payload_without_all_commitment_fields_is_rejected() {
    // 7 payload strings carry the claimed address plus only 6 commitment
    // fields: a wrong-arity commitment, refused before anything runs
    let seed = test_seed();
    let mut items = vec![ZERO_ADDRESS.to_string()];
    items.extend(test_commitment());
    items.pop();
    let payload = cbor_payload(&items);
    assert_eq!(
        process_deposit(&seed, &evm_header(1, 1), &payload),
        Err(Error::InvalidCommitmentShape)
    );
}

#[test]
fn process_deposit_rejects_bad_payloads() {
    let seed = test_seed();
    let empty = cbor_payload(&[]);
    assert_eq!(
        process_deposit(&seed, &evm_header(1, 1), &empty),
        Err(Error::InvalidCommitmentShape)
    );
    assert_eq!(
        process_deposit(&seed, &evm_header(1, 1), &vec![0xff, 0x00]),
        Err(Error::InvalidCommitmentShape)
    );
}

fn binary_request(protocol: u32, command: u32, payload: &[u8]) -> Vec<u8> {
    let mut msg = vec![0u8];
    msg.extend_from_slice(&protocol.to_be_bytes());
    msg.extend_from_slice(&0x2105u32.to_be_bytes());
    msg.extend_from_slice(&command.to_be_bytes());
    msg.extend_from_slice(payload);
    msg
}

#[test]
fn request_rejects_short_and_unknown() {
    let seed = test_seed();
    assert_eq!(handle_request(&seed, &[0u8; 12]), Err(Error::MalformedHeader));
    assert_eq!(
        handle_request(&seed, &binary_request(1, 9, &[])),
        Err(Error::UnknownCommand)
    );
}

#[test]
fn request_command_zero_exports_bundle() {
    let seed = test_seed();
    let r = handle_request(&seed, &binary_request(1, 0, &[])).unwrap();
    assert_eq!(Ok(r), init(&seed));
}

#[test]
fn request_command_one_signs_end_to_end() {
    let seed = test_seed();
    let params = test_commitment();
    let derived = derived_address_for(&seed, &params);
    let mut items = vec![derived.clone()];
    items.extend(params.clone());
    let payload = cbor_payload(&items);
    let tx_hex = handle_request(&seed, &binary_request(1, 1, &payload)).unwrap();
    let raw = hex::decode(&tx_hex[2..]).unwrap();
    let signed = TxLegacy::rlp_decode_signed(&mut raw.as_slice()).unwrap();
    let signer = signed.recover_signer().unwrap();
    assert_eq!(hex::encode(signer.as_slice()), derived);
}
