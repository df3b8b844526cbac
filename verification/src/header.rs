use vstd::prelude::*;
use crate::digits::{be32_at, read_be32};
use crate::error::Error;

verus! {

/// The fixed binary request header: 1-byte version, then three big-endian
/// 4-byte selectors, at fixed offsets 0, 1, 5 and 9. The chain identifier is
/// decoded and reported but not routed on: the EVM pipeline is selected by
/// the protocol selector alone, and no request is refused for its chain.
pub struct Header {
    pub version: u8,
    pub protocol: u32,
    pub chain_id: u32,
    pub command: u32,
}

/// Splits a raw request into its fixed 13-byte header and the remaining
/// payload, reading each selector at its exact byte offset.
pub fn decode_header(message: &[u8]) -> (r: Result<(Header, Vec<u8>), Error>)
    ensures
        message@.len() >= 13 <==> r is Ok,
        r is Err ==> r->Err_0 == Error::MalformedHeader,
        r is Ok ==> {
            let (header, payload) = r->Ok_0;
            &&& header.version == message@[0]
            &&& header.protocol as nat == be32_at(message@, 1)
            &&& header.chain_id as nat == be32_at(message@, 5)
            &&& header.command as nat == be32_at(message@, 9)
            &&& payload@ == message@.skip(13)
        },
{
    if message.len() < 13 {
        return Err(Error::MalformedHeader);
    }
    let header = Header {
        version: message[0],
        protocol: read_be32(message, 1),
        chain_id: read_be32(message, 5),
        command: read_be32(message, 9),
    };
    let mut payload: Vec<u8> = Vec::new();
    payload.extend_from_slice(&message[13..message.len()]);
    proof {
        assert(payload@ =~= message@.skip(13));
    }
    Ok((header, payload))
}

} // verus!
