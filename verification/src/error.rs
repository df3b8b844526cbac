use vstd::prelude::*;

verus! {

/// The typed commitment fields, in commitment order.
#[derive(Debug, Clone, Copy, PartialEq, Eq, Structural)]
pub enum Field {
    ChainId,
    Nonce,
    GasPrice,
    GasLimit,
    To,
    Value,
    Calldata,
}

/// Every way a request can fail. Each failure aborts the whole request;
/// `AddressMismatch` is the security gate and carries both addresses so that
/// callers can distinguish an attempted forgery from a client bug.
#[derive(Debug, Clone, PartialEq, Eq)]
pub enum Error {
    /// The binary header is shorter than its fixed 13-byte prefix.
    MalformedHeader,
    /// The header's protocol selector names no known pipeline.
    UnsupportedProtocol,
    /// The header's command selector names no known command.
    UnknownCommand,
    /// The commitment payload is not a well-formed list of exactly the
    /// expected string fields.
    InvalidCommitmentShape,
    /// The named commitment field does not parse as its expected type.
    FieldParseError(Field),
    /// The derived deposit address disagrees with the caller-claimed one.
    AddressMismatch { derived: String, claimed: String },
    /// The underlying hierarchical key derivation failed.
    DerivationFailure,
    /// The underlying transaction signing failed.
    SigningFailure,
    /// The seed is not exactly 64 bytes.
    InvalidSeedLength,
    /// The derivation path string does not parse.
    InvalidPathSyntax,
    /// The commitment digest is not exactly 32 bytes.
    InvalidDigestLength,
    /// The claimed deposit address is not a 20-byte hex address.
    InvalidAddressFormat,
}

} // verus!
