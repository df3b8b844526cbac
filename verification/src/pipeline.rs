use vstd::prelude::*;
use vstd::slice::slice_to_vec;
use vstd::string::StringExecFns;
use vstd::utf8::encode_utf8;
use crate::commitment::{
    commitment_digest, commitment_digest_of, field_ok, fields_ok, first_bad_field, params_chars,
    parse_tx_fields,
};
use crate::crypto::{
    cbor_text_array_of, chain_code_of, decode_text_array, derivation_ok_of, derive_key_material,
    keccak256, keccak256_of, private_key_of, pubkey_compressed_of, pubkey_uncompressed_of,
    sign_legacy_tx, signed_legacy_tx_of, signing_ok_of,
};
use crate::digits::{
    be32_at, bytes_to_hex, hex_of, lemma_hex_of_len, parse_address, parse_address_spec,
    parse_hex_spec, parse_u128_spec, parse_u64_spec,
};
use crate::error::Error;
use crate::header::{decode_header, Header};
use crate::path::{full_derivation_path, full_path_chars, init_path_chars, supported_path};

verus! {

// ----------------------------------------------------------------------------
// The derived deposit address
// ----------------------------------------------------------------------------

/// The canonical EVM address of an uncompressed SEC1 public key: Keccak-256
/// of the point bytes without the leading format byte, low 20 bytes.
pub open spec fn evm_address_bytes(public_key: Seq<u8>) -> Seq<u8> {
    keccak256_of(public_key.skip(1)).skip(12)
}

/// The address the seed deterministically produces for a commitment.
pub open spec fn derived_address_of(seed: Seq<u8>, params: Seq<Seq<char>>) -> Seq<u8> {
    evm_address_bytes(
        pubkey_uncompressed_of(
            private_key_of(seed, full_path_chars(commitment_digest_of(params))),
        ),
    )
}

/// Whether the claimed deposit address parses and equals the derived one.
pub open spec fn gate_passes(seed: Seq<u8>, claimed: Seq<char>, params: Seq<Seq<char>>) -> bool {
    parse_address_spec(encode_utf8(claimed)) == Some(derived_address_of(seed, params))
}

/// Computes the canonical EVM address bytes of an uncompressed public key.
pub fn evm_address(public_key: &[u8]) -> (r: Vec<u8>)
    requires
        public_key@.len() == 65,
    ensures
        r@ == evm_address_bytes(public_key@),
        r@.len() == 20,
{
    let tail: &[u8] = &public_key[1..public_key.len()];
    proof {
        assert(tail@ =~= public_key@.skip(1));
    }
    let hash = keccak256(tail);
    let addr: &[u8] = &hash.as_slice()[12..hash.len()];
    proof {
        assert(addr@ =~= evm_address_bytes(public_key@));
    }
    slice_to_vec(addr)
}

/// Renders the canonical EVM address of an uncompressed public key as
/// lower-case hex without a prefix.
pub fn get_address(public_key: &[u8]) -> (r: String)
    requires
        public_key@.len() == 65,
    ensures
        r@ == hex_of(evm_address_bytes(public_key@)),
{
    let addr = evm_address(public_key);
    bytes_to_hex(addr.as_slice())
}

fn bytes_eq(a: &[u8], b: &[u8]) -> (r: bool)
    ensures
        r == (a@ == b@),
{
    if a.len() != b.len() {
        proof {
            assert(a@.len() != b@.len());
        }
        return false;
    }
    let mut i: usize = 0;
    while i < a.len()
        invariant
            a@.len() == b@.len(),
            0 <= i <= a@.len(),
            forall|j: int| 0 <= j < i ==> a@[j] == b@[j],
        decreases a@.len() - i,
    {
        if a[i] != b[i] {
            return false;
        }
        i = i + 1;
    }
    proof {
        assert(a@ =~= b@);
    }
    true
}

// ----------------------------------------------------------------------------
// The deposit pipeline
// ----------------------------------------------------------------------------

/// The signed-transaction response for a 7-field commitment: the RLP bytes of
/// the legacy transaction signed with the derived key, hex-encoded with a
/// `0x` prefix.
pub open spec fn spec_tx_output(seed: Seq<u8>, params: Seq<Seq<char>>) -> Seq<char> {
    "0x"@ + hex_of(
        signed_legacy_tx_of(
            private_key_of(seed, full_path_chars(commitment_digest_of(params))),
            parse_u64_spec(encode_utf8(params[0]))->Some_0,
            parse_u64_spec(encode_utf8(params[1]))->Some_0,
            parse_u128_spec(encode_utf8(params[2]))->Some_0,
            parse_u64_spec(encode_utf8(params[3]))->Some_0,
            parse_address_spec(encode_utf8(params[4]))->Some_0,
            parse_u128_spec(encode_utf8(params[5]))->Some_0,
            parse_hex_spec(encode_utf8(params[6]))->Some_0,
        ),
    )
}

/// Whether the key derivation for this commitment's path succeeds.
pub open spec fn derivation_ok_for(seed: Seq<u8>, params: Seq<Seq<char>>) -> bool {
    derivation_ok_of(seed, full_path_chars(commitment_digest_of(params)))
}

/// Whether signing the legacy transaction over this commitment's parsed
/// fields with the derived key succeeds.
pub open spec fn signing_ok_for(seed: Seq<u8>, params: Seq<Seq<char>>) -> bool {
    signing_ok_of(
        private_key_of(seed, full_path_chars(commitment_digest_of(params))),
        parse_u64_spec(encode_utf8(params[0]))->Some_0,
        parse_u64_spec(encode_utf8(params[1]))->Some_0,
        parse_u128_spec(encode_utf8(params[2]))->Some_0,
        parse_u64_spec(encode_utf8(params[3]))->Some_0,
        parse_address_spec(encode_utf8(params[4]))->Some_0,
        parse_u128_spec(encode_utf8(params[5]))->Some_0,
        parse_hex_spec(encode_utf8(params[6]))->Some_0,
    )
}

/// Everything the deposit pipeline promises about its result, for a claimed
/// address and a commitment parameter list. The clauses partition the inputs,
/// so exactly one outcome is owed on every input, with `derivation_ok_of` and
/// `signing_ok_of` standing for the success of the underlying deterministic
/// key derivation and signing:
/// - a signed transaction is owed exactly when the seed is 64 bytes, the
///   commitment has exactly 7 fields, the derivation succeeds, the claimed
///   address parses and matches the derived one (the security gate), all
///   fields parse, and the signing succeeds — and it is then exactly
///   `spec_tx_output`;
/// - otherwise the error of the first failing stage, in that order. The
///   commitment's shape is rejected before anything is hashed or derived, so
///   a wrong-arity commitment never partially processes, whatever the
///   claimed address says.
pub open spec fn deposit_result_ok(
    seed: Seq<u8>,
    claimed: Seq<char>,
    params: Seq<Seq<char>>,
    r: Result<String, Error>,
) -> bool {
    let parsed = parse_address_spec(encode_utf8(claimed));
    let derivable = seed.len() == 64 && params.len() == 7 && derivation_ok_for(seed, params);
    let gated = derivable && gate_passes(seed, claimed, params);
    &&& (r == Err::<String, Error>(Error::InvalidSeedLength) <==> seed.len() != 64)
    &&& (r == Err::<String, Error>(Error::InvalidCommitmentShape) <==> seed.len() == 64
        && params.len() != 7)
    &&& (r == Err::<String, Error>(Error::DerivationFailure) <==> seed.len() == 64
        && params.len() == 7 && !derivation_ok_for(seed, params))
    &&& (r == Err::<String, Error>(Error::InvalidAddressFormat) <==> derivable && parsed is None)
    &&& ((r matches Err(Error::AddressMismatch { .. })) <==> derivable && parsed is Some
        && !gate_passes(seed, claimed, params))
    &&& (r matches Err(Error::AddressMismatch { derived: d, claimed: cl }) ==> d@ == hex_of(
        derived_address_of(seed, params),
    ) && cl@ == claimed)
    &&& ((r matches Err(Error::FieldParseError(_))) <==> gated && !fields_ok(params))
    &&& (gated && !fields_ok(params) ==> r == Err::<String, Error>(Error::FieldParseError(
        first_bad_field(params),
    )))
    &&& (r == Err::<String, Error>(Error::SigningFailure) <==> gated && fields_ok(params)
        && !signing_ok_for(seed, params))
    &&& (r is Ok <==> gated && fields_ok(params) && signing_ok_for(seed, params))
    &&& (r is Ok ==> r->Ok_0@ == spec_tx_output(seed, params))
}

/// The deposit pipeline: rejects a commitment without exactly 7 fields
/// before anything else runs, hashes the commitment, derives the deposit key
/// pair, verifies the claimed deposit address against the derived one (the
/// security gate — on mismatch nothing is signed), and only then parses the
/// typed fields and signs the legacy transaction.
pub fn handle_deposit(seed: &[u8], deposit_address: &str, commitment_params: &Vec<String>) -> (r:
    Result<String, Error>)
    ensures
        deposit_result_ok(seed@, deposit_address@, params_chars(commitment_params@), r),
{
    if seed.len() != 64 {
        return Err(Error::InvalidSeedLength);
    }
    if commitment_params.len() != 7 {
        return Err(Error::InvalidCommitmentShape);
    }
    let digest = commitment_digest(commitment_params);
    let path = match full_derivation_path(digest.as_slice()) {
        Ok(p) => p,
        Err(_) => {
            proof {
                assert(false);
            }
            return Err(Error::DerivationFailure);
        },
    };
    let km = match derive_key_material(seed, path.as_str()) {
        Ok(k) => k,
        Err(e) => {
            return Err(e);
        },
    };
    let derived = evm_address(km.pubkey_uncompressed.as_slice());
    let claimed_bytes = match parse_address(deposit_address.as_bytes()) {
        Some(b) => b,
        None => {
            return Err(Error::InvalidAddressFormat);
        },
    };
    if !bytes_eq(derived.as_slice(), claimed_bytes.as_slice()) {
        let derived_hex = bytes_to_hex(derived.as_slice());
        return Err(
            Error::AddressMismatch { derived: derived_hex, claimed: deposit_address.to_owned() },
        );
    }
    let fields = match parse_tx_fields(commitment_params) {
        Ok(f) => f,
        Err(e) => {
            return Err(e);
        },
    };
    let signed = match sign_legacy_tx(
        km.private_key.as_slice(),
        fields.chain_id,
        fields.nonce,
        fields.gas_price,
        fields.gas_limit,
        fields.to.as_slice(),
        fields.value,
        fields.calldata.as_slice(),
    ) {
        Ok(v) => v,
        Err(e) => {
            return Err(e);
        },
    };
    let mut out = String::from_str("0x");
    out.append(bytes_to_hex(signed.as_slice()).as_str());
    proof {
        assert(out@ =~= spec_tx_output(seed@, params_chars(commitment_params@)));
    }
    Ok(out)
}

// ----------------------------------------------------------------------------
// The exported public-key bundle
// ----------------------------------------------------------------------------

/// The exported bundle: 1-byte version, 4-byte protocol, 4-byte chain id,
/// 33-byte compressed public key, 32-byte chain code, hex with `0x` prefix.
pub open spec fn init_bundle_of(seed: Seq<u8>) -> Seq<char> {
    "0x"@ + "00"@ + "0000000100002105"@ + hex_of(
        pubkey_compressed_of(private_key_of(seed, init_path_chars())),
    ) + hex_of(chain_code_of(seed, init_path_chars()))
}

/// Everything `init` promises about its result: the bundle is owed exactly
/// when the seed is 64 bytes and the derivation at the fixed export path
/// succeeds, and each error is owed exactly on its own inputs.
pub open spec fn init_result_ok(seed: Seq<u8>, r: Result<String, Error>) -> bool {
    &&& (r == Err::<String, Error>(Error::InvalidSeedLength) <==> seed.len() != 64)
    &&& (r == Err::<String, Error>(Error::DerivationFailure) <==> seed.len() == 64
        && !derivation_ok_of(seed, init_path_chars()))
    &&& (r is Ok <==> seed.len() == 64 && derivation_ok_of(seed, init_path_chars()))
    &&& (r is Ok ==> r->Ok_0@ == init_bundle_of(seed))
    &&& (r is Ok ==> r->Ok_0@.len() == 150)
}

/// Derives the key pair at the fixed export path and returns the public-key
/// bundle, hex-encoded with a `0x` prefix. The seed is never echoed.
pub fn init(seed: &[u8]) -> (r: Result<String, Error>)
    ensures
        init_result_ok(seed@, r),
{
    if seed.len() != 64 {
        return Err(Error::InvalidSeedLength);
    }
    let path: &str = "m/44'/60'/0'/0/0";
    proof {
        assert(supported_path(path@));
    }
    let km = match derive_key_material(seed, path) {
        Ok(k) => k,
        Err(_) => {
            return Err(Error::DerivationFailure);
        },
    };
    let mut out = String::from_str("0x");
    out.append("00");
    out.append("0000000100002105");
    out.append(bytes_to_hex(km.pubkey_compressed.as_slice()).as_str());
    out.append(bytes_to_hex(km.chain_code.as_slice()).as_str());
    proof {
        reveal_strlit("0x");
        reveal_strlit("00");
        reveal_strlit("0000000100002105");
        lemma_hex_of_len(km.pubkey_compressed@);
        lemma_hex_of_len(km.chain_code@);
        assert(out@ =~= init_bundle_of(seed@));
        assert(out@.len() == 150);
    }
    Ok(out)
}

// ----------------------------------------------------------------------------
// The protocol decoder boundary
// ----------------------------------------------------------------------------

/// Everything `process_deposit` promises about its result: the payload must
/// decode as a CBOR array of text strings holding the claimed deposit address
/// followed by the commitment parameters (the address rides as the first
/// payload element because the decoder must route it to the pipeline and the
/// fixed header carries no field for it), the protocol selector must name the
/// EVM pipeline, and then the deposit pipeline's whole contract applies.
pub open spec fn process_result_ok(
    seed: Seq<u8>,
    protocol: u32,
    payload: Seq<u8>,
    r: Result<String, Error>,
) -> bool {
    &&& (cbor_text_array_of(payload) is None ==> r == Err::<String, Error>(
        Error::InvalidCommitmentShape,
    ))
    &&& (cbor_text_array_of(payload) matches Some(l) && l.len() == 0 ==> r == Err::<
        String,
        Error,
    >(Error::InvalidCommitmentShape))
    &&& (cbor_text_array_of(payload) matches Some(l) && l.len() > 0 && protocol != 1 ==> r
        == Err::<String, Error>(Error::UnsupportedProtocol))
    &&& (cbor_text_array_of(payload) is Some && cbor_text_array_of(payload)->Some_0.len() > 0
        && protocol == 1 ==> deposit_result_ok(
        seed,
        cbor_text_array_of(payload)->Some_0[0],
        cbor_text_array_of(payload)->Some_0.skip(1),
        r,
    ))
}

/// Decodes the commitment payload, routes on the header's protocol selector,
/// and runs the deposit pipeline.
pub fn process_deposit(seed: &[u8], header: &Header, message: &Vec<u8>) -> (r: Result<
    String,
    Error,
>)
    ensures
        process_result_ok(seed@, header.protocol, message@, r),
{
    let list = match decode_text_array(message.as_slice()) {
        Ok(v) => v,
        Err(e) => {
            return Err(e);
        },
    };
    if list.len() == 0 {
        return Err(Error::InvalidCommitmentShape);
    }
    if header.protocol != 1 {
        return Err(Error::UnsupportedProtocol);
    }
    let mut commitment: Vec<String> = Vec::new();
    let mut i: usize = 1;
    while i < list.len()
        invariant
            1 <= i <= list@.len(),
            commitment@ == list@.subrange(1, i as int),
        decreases list@.len() - i,
    {
        commitment.push(list[i].clone());
        proof {
            assert(commitment@ =~= list@.subrange(1, i as int + 1));
        }
        i = i + 1;
    }
    let r = handle_deposit(seed, list[0].as_str(), &commitment);
    proof {
        let l = list@.map_values(|s: String| s@);
        assert(commitment@ =~= list@.skip(1));
        assert(params_chars(commitment@) =~= l.skip(1));
    }
    r
}

/// The canonical request entry point: splits the fixed binary header off,
/// routes on the command selector (0 exports the public-key bundle, 1
/// processes a deposit), and never signs anything on any other command.
pub fn handle_request(seed: &[u8], message: &[u8]) -> (r: Result<String, Error>)
    ensures
        message@.len() < 13 <==> r == Err::<String, Error>(Error::MalformedHeader),
        message@.len() >= 13 && be32_at(message@, 9) == 0 ==> init_result_ok(seed@, r),
        message@.len() >= 13 && be32_at(message@, 9) == 1 ==> process_result_ok(
            seed@,
            be32_at(message@, 1) as u32,
            message@.skip(13),
            r,
        ),
        message@.len() >= 13 && be32_at(message@, 9) != 0 && be32_at(message@, 9) != 1 ==> r
            == Err::<String, Error>(Error::UnknownCommand),
{
    let decoded = match decode_header(message) {
        Ok(hp) => hp,
        Err(_) => {
            return Err(Error::MalformedHeader);
        },
    };
    let (header, payload) = decoded;
    if header.command == 0 {
        let r = init(seed);
        proof {
            assert(!(r == Err::<String, Error>(Error::MalformedHeader)));
        }
        r
    } else if header.command == 1 {
        let r = process_deposit(seed, &header, &payload);
        proof {
            assert(!(r == Err::<String, Error>(Error::MalformedHeader)));
        }
        r
    } else {
        Err(Error::UnknownCommand)
    }
}

// ----------------------------------------------------------------------------
// Laws
// ----------------------------------------------------------------------------

/// Determinism: deriving from equal seeds and equal commitments yields the
/// same derivation path, the same key material, and the same deposit address.
pub proof fn lemma_pipeline_deterministic(
    seed1: Seq<u8>,
    seed2: Seq<u8>,
    params1: Seq<Seq<char>>,
    params2: Seq<Seq<char>>,
)
    requires
        seed1 == seed2,
        params1 == params2,
    ensures
        full_path_chars(commitment_digest_of(params1)) == full_path_chars(
            commitment_digest_of(params2),
        ),
        private_key_of(seed1, full_path_chars(commitment_digest_of(params1))) == private_key_of(
            seed2,
            full_path_chars(commitment_digest_of(params2)),
        ),
        derived_address_of(seed1, params1) == derived_address_of(seed2, params2),
{
}

/// Security gate: whenever the claimed address differs from the derived one
/// (or does not even parse), the pipeline returns no signed transaction; the
/// only possible errors are the address mismatch itself, a bad address
/// format, a wrong seed length, a wrong commitment arity (rejected before the
/// gate), or a key-derivation failure.
pub proof fn lemma_security_gate(
    seed: Seq<u8>,
    claimed: Seq<char>,
    params: Seq<Seq<char>>,
    r: Result<String, Error>,
)
    requires
        deposit_result_ok(seed, claimed, params, r),
        !gate_passes(seed, claimed, params),
    ensures
        !(r is Ok),
        r->Err_0 matches Error::AddressMismatch { .. } || r->Err_0 == Error::InvalidAddressFormat
            || r->Err_0 == Error::DerivationFailure || r->Err_0 == Error::InvalidSeedLength
            || r->Err_0 == Error::InvalidCommitmentShape,
{
}

/// Positive path: when the claimed address matches the derived one and the
/// commitment is well-shaped with parseable fields, the pipeline returns the
/// signed transaction (unless the underlying cryptographic derivation or
/// signing itself fails), and that transaction is exactly the one signed with
/// the derived key over those fields.
pub proof fn lemma_positive_path(
    seed: Seq<u8>,
    claimed: Seq<char>,
    params: Seq<Seq<char>>,
    r: Result<String, Error>,
)
    requires
        deposit_result_ok(seed, claimed, params, r),
        seed.len() == 64,
        gate_passes(seed, claimed, params),
        params.len() == 7,
        fields_ok(params),
    ensures
        r is Ok <==> derivation_ok_for(seed, params) && signing_ok_for(seed, params),
        !derivation_ok_for(seed, params) ==> r == Err::<String, Error>(Error::DerivationFailure),
        derivation_ok_for(seed, params) && !signing_ok_for(seed, params) ==> r == Err::<
            String,
            Error,
        >(Error::SigningFailure),
        r is Ok ==> r->Ok_0@ == spec_tx_output(seed, params),
{
}

/// Commitment-shape rejection: a commitment without exactly 7 fields never
/// yields a signed transaction and, for a 64-byte seed, always fails with
/// `InvalidCommitmentShape`, whatever the claimed address — nothing is
/// hashed, derived or signed first.
pub proof fn lemma_shape_rejection(
    seed: Seq<u8>,
    claimed: Seq<char>,
    params: Seq<Seq<char>>,
    r: Result<String, Error>,
)
    requires
        deposit_result_ok(seed, claimed, params, r),
        params.len() != 7,
    ensures
        !(r is Ok),
        seed.len() == 64 ==> r == Err::<String, Error>(Error::InvalidCommitmentShape),
{
}

/// Determinism of the whole pipeline result: any two results that meet the
/// deposit contract for the same seed, claimed address and commitment agree —
/// the same success with the same transaction hex, or the same error, with
/// the same diagnostic addresses on a mismatch.
pub proof fn lemma_result_deterministic(
    seed: Seq<u8>,
    claimed: Seq<char>,
    params: Seq<Seq<char>>,
    r1: Result<String, Error>,
    r2: Result<String, Error>,
)
    requires
        deposit_result_ok(seed, claimed, params, r1),
        deposit_result_ok(seed, claimed, params, r2),
    ensures
        r1 is Ok <==> r2 is Ok,
        r1 is Ok ==> r1->Ok_0@ == r2->Ok_0@,
        (r1 matches Err(Error::AddressMismatch { .. })) <==> (r2 matches Err(
            Error::AddressMismatch { .. },
        )),
        r1 is Err && !(r1 matches Err(Error::AddressMismatch { .. })) ==> r1 == r2,
{
}

} // verus!
