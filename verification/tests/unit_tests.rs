use deposit_oracle::commitment::commitment_digest;
use deposit_oracle::data::{Input, Output};
use deposit_oracle::digits::{
    bytes_to_hex, parse_address, parse_hex, parse_u128, parse_u64, read_be32, u32_to_dec,
};
use deposit_oracle::error::Error;
use deposit_oracle::header::decode_header;
use deposit_oracle::path::get_derivation_path_from_hash;
use deposit_oracle::pipeline::{get_address, init};

#[test]
fn derivation_path_exact_segments() {
    let mut hash = [0u8; 32];
    for k in 0..8 {
        hash[4 * k + 3] = (k + 1) as u8;
    }
    let path = get_derivation_path_from_hash(&hash).unwrap();
    assert_eq!(path, "1/2/3/4/5/6/7/8");
}

#[test]
fn derivation_path_modulus_boundaries() {
    let mut hash = [0u8; 32];
    // 0xFFFFFFFF % (2^31 - 1) == 1
    hash[0] = 0xff;
    hash[1] = 0xff;
    hash[2] = 0xff;
    hash[3] = 0xff;
    // 0x80000000 % (2^31 - 1) == 1
    hash[4] = 0x80;
    // 0x7FFFFFFF % (2^31 - 1) == 0
    hash[8] = 0x7f;
    hash[9] = 0xff;
    hash[10] = 0xff;
    hash[11] = 0xff;
    let path = get_derivation_path_from_hash(&hash).unwrap();
    assert_eq!(path, "1/1/0/0/0/0/0/0");
}

#[test]
fn derivation_path_rejects_wrong_length() {
    assert_eq!(
        get_derivation_path_from_hash(&[0u8; 31]),
        Err(Error::InvalidDigestLength)
    );
    assert_eq!(
        get_derivation_path_from_hash(&[0u8; 33]),
        Err(Error::InvalidDigestLength)
    );
}

#[test]
fn commitment_digest_matches_sha256() {
    let params = vec!["abc".to_string()];
    let d = commitment_digest(&params);
    assert_eq!(
        hex::encode(&d),
        "ba7816bf8f01cfea414140de5dae2223b00361a396177a9cb410ff61f20015ad"
    );
}

#[test]
fn commitment_digest_has_no_separators() {
    let a = commitment_digest(&vec!["12".to_string(), "3".to_string()]);
    let b = commitment_digest(&vec!["1".to_string(), "23".to_string()]);
    let c = commitment_digest(&vec!["123".to_string()]);
    assert_eq!(a, b);
    assert_eq!(b, c);
}

#[test]
fn address_of_known_public_key() {
    // The generator point: the public key of private scalar 1.
    let pubkey = hex::decode(
        "0479be667ef9dcbbac55a06295ce870b07029bfcdb2dce28d959f2815b16f81798\
         483ada7726a3c4655da4fbfc0e1108a8fd17b448a68554199c47d08ffb10d4b8",
    )
    .unwrap();
    assert_eq!(get_address(&pubkey), "7e5f4552091a69125d5dfcb7b8c2659029395bdf");
}

#[test]
fn header_offsets_exact() {
    let mut msg = vec![7u8];
    msg.extend_from_slice(&[0, 0, 0, 1]);
    msg.extend_from_slice(&[0, 0, 0x21, 0x05]);
    msg.extend_from_slice(&[0, 0, 0, 2]);
    msg.extend_from_slice(&[0xde, 0xad]);
    let (h, payload) = decode_header(&msg).unwrap();
    assert_eq!(h.version, 7);
    assert_eq!(h.protocol, 1);
    assert_eq!(h.chain_id, 0x2105);
    assert_eq!(h.command, 2);
    assert_eq!(payload, vec![0xde, 0xad]);
}

#[test]
fn header_with_empty_payload() {
    let msg = [1u8, 0, 0, 0, 9, 0, 0, 0, 8, 0, 0, 0, 7];
    let (h, payload) = decode_header(&msg).unwrap();
    assert_eq!(h.version, 1);
    assert_eq!(h.protocol, 9);
    assert_eq!(h.chain_id, 8);
    assert_eq!(h.command, 7);
    assert!(payload.is_empty());
}

#[test]
fn header_too_short_is_malformed() {
    assert!(matches!(decode_header(&[0u8; 12]), Err(Error::MalformedHeader)));
    assert!(matches!(decode_header(&[]), Err(Error::MalformedHeader)));
}

#[test]
fn parse_u64_exact_values() {
    assert_eq!(parse_u64(b"0"), Some(0));
    assert_eq!(parse_u64(b"00123"), Some(123));
    assert_eq!(parse_u64(b"18446744073709551615"), Some(u64::MAX));
    assert_eq!(parse_u64(b"18446744073709551616"), None);
    assert_eq!(parse_u64(b""), None);
    assert_eq!(parse_u64(b"+5"), None);
    assert_eq!(parse_u64(b"1x"), None);
}

#[test]
fn parse_u128_exact_values() {
    assert_eq!(parse_u128(b"340282366920938463463374607431768211455"), Some(u128::MAX));
    assert_eq!(parse_u128(b"340282366920938463463374607431768211456"), None);
    assert_eq!(parse_u128(b"1000000000"), Some(1_000_000_000));
}

#[test]
fn parse_hex_blobs() {
    assert_eq!(parse_hex(b"0x"), Some(vec![]));
    assert_eq!(parse_hex(b""), Some(vec![]));
    assert_eq!(parse_hex(b"0xdeadBEEF"), Some(vec![0xde, 0xad, 0xbe, 0xef]));
    assert_eq!(parse_hex(b"00ff"), Some(vec![0x00, 0xff]));
    assert_eq!(parse_hex(b"0xf"), None);
    assert_eq!(parse_hex(b"zz"), None);
}

#[test]
fn parse_address_cases() {
    let a = parse_address(b"0x7e5f4552091a69125d5dfcb7b8c2659029395bdf").unwrap();
    assert_eq!(hex::encode(&a), "7e5f4552091a69125d5dfcb7b8c2659029395bdf");
    let b = parse_address(b"7E5F4552091A69125d5dfcb7b8c2659029395Bdf").unwrap();
    assert_eq!(a, b);
    assert_eq!(parse_address(b"0x7e5f"), None);
    assert_eq!(parse_address(b"0xzz5f4552091a69125d5dfcb7b8c2659029395bdf"), None);
    assert_eq!(parse_address(b""), None);
}

#[test]
fn decimal_rendering_exact() {
    assert_eq!(u32_to_dec(0), "0");
    assert_eq!(u32_to_dec(7), "7");
    assert_eq!(u32_to_dec(1021029), "1021029");
    assert_eq!(u32_to_dec(u32::MAX), "4294967295");
}

#[test]
fn hex_rendering_exact() {
    assert_eq!(bytes_to_hex(&[0x00, 0xff, 0x21, 0x05]), "00ff2105");
    assert_eq!(bytes_to_hex(&[]), "");
}

#[test]
fn big_endian_read_exact() {
    assert_eq!(read_be32(&[0x01, 0x02, 0x03, 0x04], 0), 0x01020304);
    assert_eq!(read_be32(&[0xff, 0x01, 0x02, 0x03, 0x04], 1), 0x01020304);
}

#[test]
fn init_bundle_matches_direct_derivation() {
    let seed: Vec<u8> = (0u8..64).collect();
    let bundle = init(&seed).unwrap();
    assert!(bundle.starts_with("0x000000000100002105"));
    assert_eq!(bundle.len(), 2 + 2 + 16 + 66 + 64);
    let xprv =
        bip32::XPrv::derive_from_path(&seed, &"m/44'/60'/0'/0/0".parse().unwrap()).unwrap();
    let xpub = xprv.public_key();
    let expected = format!(
        "0x000000000100002105{}{}",
        hex::encode(xpub.to_bytes()),
        hex::encode(xpub.attrs().chain_code)
    );
    assert_eq!(bundle, expected);
}

#[test]
fn init_rejects_wrong_seed_length() {
    assert_eq!(init(&[0u8; 63]), Err(Error::InvalidSeedLength));
    assert_eq!(init(&[0u8; 65]), Err(Error::InvalidSeedLength));
}

#[test]
fn envelope_fields_carry_strings() {
    let input = Input { message: "00".to_string() };
    let output = Output { result: "0x".to_string() };
    assert_eq!(input.message, "00");
    assert_eq!(output.result, "0x");
}
