use vstd::prelude::*;

verus! {

/// A request envelope: a hex-encoded binary header plus commitment payload.
pub struct Input {
    pub message: String,
}

/// A response envelope: an exported public-key bundle or a `0x`-prefixed
/// signed transaction, depending on the request's command.
pub struct Output {
    pub result: String,
}

} // verus!
