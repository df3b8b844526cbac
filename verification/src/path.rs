use vstd::prelude::*;
use vstd::string::StringExecFns;
use crate::digits::{be32_at, dec_of, read_be32, u32_to_dec};
use crate::error::Error;

verus! {

/// Non-hardened child indices must be strictly below `2^31`; every derived
/// segment is reduced modulo `2^31 - 1`, which keeps it strictly below the
/// hardened boundary (and below `2^31 - 1` itself).
pub const NON_HARDENED_LIMIT: u32 = 0x7fffffff;

/// Segment `i` of the derived path suffix: the `i`-th big-endian 4-byte chunk
/// of the digest, reduced modulo `2^31 - 1`.
pub open spec fn path_segment(digest: Seq<u8>, i: int) -> nat {
    be32_at(digest, 4 * i) % 0x7fffffff
}

/// The first `k` derived segments, rendered in decimal and joined with `/`.
pub open spec fn suffix_prefix_of(digest: Seq<u8>, k: int) -> Seq<char>
    decreases k,
{
    if k <= 0 {
        Seq::<char>::empty()
    } else if k == 1 {
        dec_of(path_segment(digest, 0))
    } else {
        suffix_prefix_of(digest, k - 1) + seq!['/'] + dec_of(path_segment(digest, k - 1))
    }
}

/// The full derived path suffix: all 8 segments.
pub open spec fn path_suffix_of(digest: Seq<u8>) -> Seq<char> {
    suffix_prefix_of(digest, 8)
}

/// The fixed EVM chain prefix that the derived suffix is appended to.
pub open spec fn evm_prefix_chars() -> Seq<char> {
    "m/44'/60'/0'/0/0/"@
}

/// The fixed path used for the exported public-key bundle.
pub open spec fn init_path_chars() -> Seq<char> {
    "m/44'/60'/0'/0/0"@
}

/// The full derivation path for a commitment digest.
pub open spec fn full_path_chars(digest: Seq<u8>) -> Seq<char> {
    evm_prefix_chars() + path_suffix_of(digest)
}

/// The path strings this library ever hands to the key-derivation engine:
/// the fixed export path, or the fixed prefix plus 8 derived decimal segments.
pub open spec fn supported_path(s: Seq<char>) -> bool {
    s == init_path_chars() || exists|d: Seq<u8>|
        d.len() == 32 && s == #[trigger] full_path_chars(d)
}

/// Every derived path segment is a non-negative integer strictly below
/// `2^31 - 1`, hence a valid non-hardened child index.
pub proof fn lemma_path_segments_valid(digest: Seq<u8>)
    ensures
        forall|i: int| 0 <= i < 8 ==> #[trigger] path_segment(digest, i) < 0x7fffffff,
{
}

/// Maps a 32-byte digest to the derived path suffix: 8 consecutive big-endian
/// 4-byte values, each reduced modulo `2^31 - 1`, rendered in decimal and
/// joined with `/`. Any other input length is refused.
pub fn get_derivation_path_from_hash(hash: &[u8]) -> (r: Result<String, Error>)
    ensures
        hash@.len() == 32 <==> r is Ok,
        r is Ok ==> r->Ok_0@ == path_suffix_of(hash@),
        r is Err ==> r->Err_0 == Error::InvalidDigestLength,
{
    if hash.len() != 32 {
        return Err(Error::InvalidDigestLength);
    }
    let mut out = String::new();
    let mut k: usize = 0;
    while k < 8
        invariant
            hash@.len() == 32,
            0 <= k <= 8,
            out@ == suffix_prefix_of(hash@, k as int),
        decreases 8 - k,
    {
        if k > 0 {
            out.append("/");
            proof {
                reveal_strlit("/");
                assert(out@ =~= suffix_prefix_of(hash@, k as int) + seq!['/']);
            }
        }
        let value = read_be32(hash, 4 * k);
        let segment = value % NON_HARDENED_LIMIT;
        out.append(u32_to_dec(segment).as_str());
        proof {
            assert(segment as nat == path_segment(hash@, k as int));
            assert(out@ =~= suffix_prefix_of(hash@, k as int + 1));
        }
        k = k + 1;
    }
    Ok(out)
}

/// The full derivation path for a 32-byte commitment digest: the fixed EVM
/// prefix followed by the derived suffix.
pub fn full_derivation_path(digest: &[u8]) -> (r: Result<String, Error>)
    ensures
        digest@.len() == 32 <==> r is Ok,
        r is Ok ==> r->Ok_0@ == full_path_chars(digest@) && supported_path(r->Ok_0@),
        r is Err ==> r->Err_0 == Error::InvalidDigestLength,
{
    let suffix = match get_derivation_path_from_hash(digest) {
        Ok(s) => s,
        Err(e) => {
            return Err(e);
        },
    };
    let mut out = String::from_str("m/44'/60'/0'/0/0/");
    out.append(suffix.as_str());
    proof {
        assert(out@ =~= full_path_chars(digest@));
        assert(digest@.len() == 32 && out@ == full_path_chars(digest@));
    }
    Ok(out)
}

} // verus!
