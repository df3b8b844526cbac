use vstd::prelude::*;
use crate::error::Error;
use crate::path::supported_path;
use alloy::consensus::{SignableTransaction, TxLegacy};
use alloy::network::TxSignerSync;
use alloy::primitives::{Address, Bytes, TxKind, U256};
use alloy::signers::k256::ecdsa::SigningKey;
use alloy::signers::local::PrivateKeySigner;
use sha2::Digest;

verus! {

// ----------------------------------------------------------------------------
// Names for what the outside cryptographic calls return. Each is a pure
// function of its arguments; the trusted items below are the only places
// that say anything about them.
// ----------------------------------------------------------------------------

/// The SHA-256 digest of a byte string.
pub uninterp spec fn sha256_of(data: Seq<u8>) -> Seq<u8>;

/// The Keccak-256 digest of a byte string.
pub uninterp spec fn keccak256_of(data: Seq<u8>) -> Seq<u8>;

/// The private scalar derived from a seed by BIP-32 derivation along a path.
pub uninterp spec fn private_key_of(seed: Seq<u8>, path: Seq<char>) -> Seq<u8>;

/// The chain code accompanying the key derived from a seed along a path.
pub uninterp spec fn chain_code_of(seed: Seq<u8>, path: Seq<char>) -> Seq<u8>;

/// The uncompressed SEC1 encoding of the public point of a private scalar.
pub uninterp spec fn pubkey_uncompressed_of(private_key: Seq<u8>) -> Seq<u8>;

/// The compressed SEC1 encoding of the public point of a private scalar.
pub uninterp spec fn pubkey_compressed_of(private_key: Seq<u8>) -> Seq<u8>;

/// Whether BIP-32 derivation from a seed along a well-formed path succeeds.
/// Derivation is deterministic, so success is a function of seed and path;
/// the failing case is the astronomically rare invalid-child-key condition.
pub uninterp spec fn derivation_ok_of(seed: Seq<u8>, path: Seq<char>) -> bool;

/// Whether building and signing the legacy transaction succeeds for these
/// arguments. Signing is deterministic (RFC 6979), so success is a function
/// of the private scalar and the transaction fields alone.
pub uninterp spec fn signing_ok_of(
    private_key: Seq<u8>,
    chain_id: u64,
    nonce: u64,
    gas_price: u128,
    gas_limit: u64,
    to: Seq<u8>,
    value: u128,
    input: Seq<u8>,
) -> bool;

/// The RLP encoding of the EVM legacy transaction with the given fields,
/// signed with the given private scalar (deterministic ECDSA).
pub uninterp spec fn signed_legacy_tx_of(
    private_key: Seq<u8>,
    chain_id: u64,
    nonce: u64,
    gas_price: u128,
    gas_limit: u64,
    to: Seq<u8>,
    value: u128,
    input: Seq<u8>,
) -> Seq<u8>;

/// What a byte string decodes to as a CBOR array of text strings, if anything.
pub uninterp spec fn cbor_text_array_of(data: Seq<u8>) -> Option<Seq<Seq<char>>>;

// ----------------------------------------------------------------------------
// Trusted wrappers around the outside calls
// ----------------------------------------------------------------------------

/// Relies on sha2's `Sha256::digest`: a 32-byte digest that is a function of
/// the input bytes alone.
#[verifier::external_body]
pub(crate) fn sha256(data: &[u8]) -> (r: Vec<u8>)
    ensures
        r@ == sha256_of(data@),
        r@.len() == 32,
{
    sha2::Sha256::digest(data).to_vec()
}

/// Relies on sha3's `Keccak256::digest`: a 32-byte digest that is a function
/// of the input bytes alone.
#[verifier::external_body]
pub(crate) fn keccak256(data: &[u8]) -> (r: Vec<u8>)
    ensures
        r@ == keccak256_of(data@),
        r@.len() == 32,
{
    sha3::Keccak256::digest(data).to_vec()
}

/// The key material derived for one deposit: the private scalar, both SEC1
/// encodings of its public point, and the chain code.
pub struct KeyMaterial {
    pub private_key: Vec<u8>,
    pub pubkey_uncompressed: Vec<u8>,
    pub pubkey_compressed: Vec<u8>,
    pub chain_code: Vec<u8>,
}

/// Relies on bip32's `XPrv` (BIP-32): `derive_from_path` derives key material
/// that is a function of the seed and path alone; `DerivationPath`'s `FromStr`
/// accepts exactly `m`-rooted slash-separated unsigned 31-bit components, so
/// every path this library builds (see `supported_path`) parses; and on
/// k256's `to_sec1_point`, whose SEC1 encodings (65 bytes uncompressed,
/// 33 compressed) are functions of the private scalar alone.
#[verifier::external_body]
pub(crate) fn derive_key_material(seed: &[u8], path: &str) -> (r: Result<KeyMaterial, Error>)
    requires
        seed@.len() == 64,
    ensures
        r is Ok ==> r->Ok_0.private_key@ == private_key_of(seed@, path@),
        r is Ok ==> r->Ok_0.private_key@.len() == 32,
        r is Ok ==> r->Ok_0.pubkey_uncompressed@ == pubkey_uncompressed_of(
            r->Ok_0.private_key@,
        ),
        r is Ok ==> r->Ok_0.pubkey_uncompressed@.len() == 65,
        r is Ok ==> r->Ok_0.pubkey_compressed@ == pubkey_compressed_of(r->Ok_0.private_key@),
        r is Ok ==> r->Ok_0.pubkey_compressed@.len() == 33,
        r is Ok ==> r->Ok_0.chain_code@ == chain_code_of(seed@, path@),
        r is Ok ==> r->Ok_0.chain_code@.len() == 32,
        r is Err ==> (r->Err_0 == Error::InvalidPathSyntax || r->Err_0 == Error::DerivationFailure),
        r is Err && supported_path(path@) ==> r->Err_0 == Error::DerivationFailure,
        supported_path(path@) ==> (r is Ok <==> derivation_ok_of(seed@, path@)),
{
    let parsed: bip32::DerivationPath = match path.parse() {
        Ok(p) => p,
        Err(_) => return Err(Error::InvalidPathSyntax),
    };
    let xprv = match bip32::XPrv::derive_from_path(seed, &parsed) {
        Ok(x) => x,
        Err(_) => return Err(Error::DerivationFailure),
    };
    let xpub = xprv.public_key();
    Ok(KeyMaterial {
        private_key: xprv.private_key().to_bytes().to_vec(),
        pubkey_uncompressed: xpub.public_key().to_sec1_point(false).as_bytes().to_vec(),
        pubkey_compressed: xpub.public_key().to_sec1_point(true).as_bytes().to_vec(),
        chain_code: xpub.attrs().chain_code.to_vec(),
    })
}

/// Relies on alloy: `TxLegacy`'s EIP-155 signing hash, deterministic
/// (RFC 6979) ECDSA via `PrivateKeySigner::sign_transaction_sync`, and the
/// canonical RLP encoding via `into_signed` and `rlp_encode` — together a
/// function of the private scalar and the transaction fields alone.
#[verifier::external_body]
pub(crate) fn sign_legacy_tx(
    private_key: &[u8],
    chain_id: u64,
    nonce: u64,
    gas_price: u128,
    gas_limit: u64,
    to: &[u8],
    value: u128,
    input: &[u8],
) -> (r: Result<Vec<u8>, Error>)
    requires
        to@.len() == 20,
    ensures
        r is Ok ==> r->Ok_0@ == signed_legacy_tx_of(
            private_key@,
            chain_id,
            nonce,
            gas_price,
            gas_limit,
            to@,
            value,
            input@,
        ),
        r is Err ==> r->Err_0 == Error::SigningFailure,
        r is Ok <==> signing_ok_of(
            private_key@,
            chain_id,
            nonce,
            gas_price,
            gas_limit,
            to@,
            value,
            input@,
        ),
{
    let key = SigningKey::from_slice(private_key).map_err(|_| Error::SigningFailure)?;
    let signer = PrivateKeySigner::from_signing_key(key);
    let mut tx = TxLegacy {
        chain_id: Some(chain_id),
        nonce,
        gas_price,
        gas_limit,
        to: TxKind::Call(Address::from_slice(to)),
        value: U256::from(value),
        input: Bytes::copy_from_slice(input),
    };
    let signature = signer.sign_transaction_sync(&mut tx).map_err(|_| Error::SigningFailure)?;
    let mut out: Vec<u8> = Vec::new();
    tx.into_signed(signature).rlp_encode(&mut out);
    Ok(out)
}

/// Relies on minicbor's `decode` for `Vec<String>`: decoding a CBOR array of
/// text strings, a function of the input bytes alone.
#[verifier::external_body]
pub(crate) fn decode_text_array(data: &[u8]) -> (r: Result<Vec<String>, Error>)
    ensures
        r is Ok ==> cbor_text_array_of(data@) == Some(r->Ok_0@.map_values(|s: String| s@)),
        r is Err ==> cbor_text_array_of(data@) is None && r->Err_0
            == Error::InvalidCommitmentShape,
{
    match minicbor::decode::<Vec<String>>(data) {
        Ok(v) => Ok(v),
        Err(_) => Err(Error::InvalidCommitmentShape),
    }
}

} // verus!
