use vstd::prelude::*;
use vstd::string::StringSliceAdditionalSpecFns;
use vstd::utf8::encode_utf8;
use crate::crypto::{sha256, sha256_of};
use crate::digits::{
    parse_address, parse_address_spec, parse_hex, parse_hex_spec, parse_u128, parse_u128_spec,
    parse_u64, parse_u64_spec,
};
use crate::error::{Error, Field};

verus! {

/// The concatenation of the UTF-8 bytes of each parameter, in list order,
/// with no separators between parameters.
pub open spec fn commitment_bytes(params: Seq<Seq<char>>) -> Seq<u8>
    decreases params.len(),
{
    if params.len() == 0 {
        Seq::<u8>::empty()
    } else {
        commitment_bytes(params.drop_last()) + encode_utf8(params.last())
    }
}

/// The commitment digest: SHA-256 of the concatenated parameter bytes.
pub open spec fn commitment_digest_of(params: Seq<Seq<char>>) -> Seq<u8> {
    sha256_of(commitment_bytes(params))
}

/// The character sequences of a list of string parameters.
pub open spec fn params_chars(params: Seq<String>) -> Seq<Seq<char>> {
    params.map_values(|s: String| s@)
}

/// Feeds each parameter's raw bytes, in list order, into a single SHA-256
/// accumulator. No separators are inserted between parameters, so two lists
/// whose concatenations agree hash alike; that boundary ambiguity is a known
/// trade-off, kept deliberately for byte-for-byte hash compatibility.
pub fn commitment_digest(params: &Vec<String>) -> (r: Vec<u8>)
    ensures
        r@ == commitment_digest_of(params_chars(params@)),
        r@.len() == 32,
{
    let mut data: Vec<u8> = Vec::new();
    let mut i: usize = 0;
    while i < params.len()
        invariant
            0 <= i <= params@.len(),
            data@ == commitment_bytes(params_chars(params@).take(i as int)),
        decreases params@.len() - i,
    {
        data.extend_from_slice(params[i].as_str().as_bytes());
        proof {
            let ps = params_chars(params@);
            assert(ps.take(i as int + 1).drop_last() =~= ps.take(i as int));
            assert(ps.take(i as int + 1).last() == ps[i as int]);
            assert(data@ =~= commitment_bytes(ps.take(i as int + 1)));
        }
        i = i + 1;
    }
    proof {
        assert(params_chars(params@).take(params@.len() as int) =~= params_chars(params@));
    }
    sha256(data.as_slice())
}

/// Whether field `f` of a 7-parameter commitment parses as its expected type.
pub open spec fn field_ok(params: Seq<Seq<char>>, f: Field) -> bool {
    match f {
        Field::ChainId => parse_u64_spec(encode_utf8(params[0])) is Some,
        Field::Nonce => parse_u64_spec(encode_utf8(params[1])) is Some,
        Field::GasPrice => parse_u128_spec(encode_utf8(params[2])) is Some,
        Field::GasLimit => parse_u64_spec(encode_utf8(params[3])) is Some,
        Field::To => parse_address_spec(encode_utf8(params[4])) is Some,
        Field::Value => parse_u128_spec(encode_utf8(params[5])) is Some,
        Field::Calldata => parse_hex_spec(encode_utf8(params[6])) is Some,
    }
}

/// Whether all 7 typed fields of the commitment parse.
pub open spec fn fields_ok(params: Seq<Seq<char>>) -> bool {
    &&& field_ok(params, Field::ChainId)
    &&& field_ok(params, Field::Nonce)
    &&& field_ok(params, Field::GasPrice)
    &&& field_ok(params, Field::GasLimit)
    &&& field_ok(params, Field::To)
    &&& field_ok(params, Field::Value)
    &&& field_ok(params, Field::Calldata)
}

/// The first commitment field, in order, that fails to parse (meaningful
/// only when `fields_ok` does not hold).
pub open spec fn first_bad_field(params: Seq<Seq<char>>) -> Field {
    if !field_ok(params, Field::ChainId) {
        Field::ChainId
    } else if !field_ok(params, Field::Nonce) {
        Field::Nonce
    } else if !field_ok(params, Field::GasPrice) {
        Field::GasPrice
    } else if !field_ok(params, Field::GasLimit) {
        Field::GasLimit
    } else if !field_ok(params, Field::To) {
        Field::To
    } else if !field_ok(params, Field::Value) {
        Field::Value
    } else {
        Field::Calldata
    }
}

/// The typed fields of an EVM legacy transaction commitment:
/// `[chainId, nonce, gasPrice, gasLimit, toAddress, value, calldata]`.
#[derive(Debug)]
pub struct TxFields {
    pub chain_id: u64,
    pub nonce: u64,
    pub gas_price: u128,
    pub gas_limit: u64,
    pub to: Vec<u8>,
    pub value: u128,
    pub calldata: Vec<u8>,
}

/// Parses the commitment into its typed fields: fails with
/// `InvalidCommitmentShape` unless there are exactly 7 parameters, and with
/// `FieldParseError` naming the first offending field when one does not
/// parse.
pub fn parse_tx_fields(params: &Vec<String>) -> (r: Result<TxFields, Error>)
    ensures
        (params@.len() == 7 && fields_ok(params_chars(params@))) <==> r is Ok,
        params@.len() != 7 <==> r == Err::<TxFields, Error>(Error::InvalidCommitmentShape),
        r matches Err(Error::FieldParseError(f)) ==> params@.len() == 7 && !field_ok(
            params_chars(params@),
            f,
        ),
        params@.len() == 7 && !fields_ok(params_chars(params@)) ==> r == Err::<TxFields, Error>(
            Error::FieldParseError(first_bad_field(params_chars(params@))),
        ),
        r is Err ==> (r->Err_0 == Error::InvalidCommitmentShape || r->Err_0 matches Error::FieldParseError(_)),
        r is Ok ==> r->Ok_0.chain_id == parse_u64_spec(
            encode_utf8(params_chars(params@)[0]),
        )->Some_0,
        r is Ok ==> r->Ok_0.nonce == parse_u64_spec(encode_utf8(params_chars(params@)[1]))->Some_0,
        r is Ok ==> r->Ok_0.gas_price == parse_u128_spec(
            encode_utf8(params_chars(params@)[2]),
        )->Some_0,
        r is Ok ==> r->Ok_0.gas_limit == parse_u64_spec(
            encode_utf8(params_chars(params@)[3]),
        )->Some_0,
        r is Ok ==> r->Ok_0.to@ == parse_address_spec(
            encode_utf8(params_chars(params@)[4]),
        )->Some_0 && r->Ok_0.to@.len() == 20,
        r is Ok ==> r->Ok_0.value == parse_u128_spec(
            encode_utf8(params_chars(params@)[5]),
        )->Some_0,
        r is Ok ==> r->Ok_0.calldata@ == parse_hex_spec(
            encode_utf8(params_chars(params@)[6]),
        )->Some_0,
{
    if params.len() != 7 {
        return Err(Error::InvalidCommitmentShape);
    }
    let chain_id = match parse_u64(params[0].as_str().as_bytes()) {
        Some(v) => v,
        None => {
            return Err(Error::FieldParseError(Field::ChainId));
        },
    };
    let nonce = match parse_u64(params[1].as_str().as_bytes()) {
        Some(v) => v,
        None => {
            return Err(Error::FieldParseError(Field::Nonce));
        },
    };
    let gas_price = match parse_u128(params[2].as_str().as_bytes()) {
        Some(v) => v,
        None => {
            return Err(Error::FieldParseError(Field::GasPrice));
        },
    };
    let gas_limit = match parse_u64(params[3].as_str().as_bytes()) {
        Some(v) => v,
        None => {
            return Err(Error::FieldParseError(Field::GasLimit));
        },
    };
    let to = match parse_address(params[4].as_str().as_bytes()) {
        Some(v) => v,
        None => {
            return Err(Error::FieldParseError(Field::To));
        },
    };
    let value = match parse_u128(params[5].as_str().as_bytes()) {
        Some(v) => v,
        None => {
            return Err(Error::FieldParseError(Field::Value));
        },
    };
    let calldata = match parse_hex(params[6].as_str().as_bytes()) {
        Some(v) => v,
        None => {
            return Err(Error::FieldParseError(Field::Calldata));
        },
    };
    Ok(TxFields { chain_id, nonce, gas_price, gas_limit, to, value, calldata })
}

} // verus!
