use vstd::prelude::*;
use vstd::string::StringExecFns;

verus! {

// ----------------------------------------------------------------------------
// Decimal rendering
// ----------------------------------------------------------------------------

pub open spec fn digit_char(d: nat) -> char {
    if d == 0 {
        '0'
    } else if d == 1 {
        '1'
    } else if d == 2 {
        '2'
    } else if d == 3 {
        '3'
    } else if d == 4 {
        '4'
    } else if d == 5 {
        '5'
    } else if d == 6 {
        '6'
    } else if d == 7 {
        '7'
    } else if d == 8 {
        '8'
    } else {
        '9'
    }
}

/// The decimal rendering of `n`, without leading zeroes (`0` renders as `"0"`).
pub open spec fn dec_of(n: nat) -> Seq<char>
    decreases n,
{
    if n < 10 {
        seq![digit_char(n)]
    } else {
        dec_of(n / 10).push(digit_char(n % 10))
    }
}

fn digit_str(d: u32) -> (r: &'static str)
    requires
        d < 10,
    ensures
        r@ =~= seq![digit_char(d as nat)],
{
    proof {
        reveal_strlit("0");
        reveal_strlit("1");
        reveal_strlit("2");
        reveal_strlit("3");
        reveal_strlit("4");
        reveal_strlit("5");
        reveal_strlit("6");
        reveal_strlit("7");
        reveal_strlit("8");
        reveal_strlit("9");
    }
    if d == 0 {
        "0"
    } else if d == 1 {
        "1"
    } else if d == 2 {
        "2"
    } else if d == 3 {
        "3"
    } else if d == 4 {
        "4"
    } else if d == 5 {
        "5"
    } else if d == 6 {
        "6"
    } else if d == 7 {
        "7"
    } else if d == 8 {
        "8"
    } else {
        "9"
    }
}

/// Renders `n` in decimal.
pub fn u32_to_dec(n: u32) -> (r: String)
    ensures
        r@ == dec_of(n as nat),
    decreases n,
{
    if n < 10 {
        let r = digit_str(n).to_owned();
        proof {
            assert(r@ =~= dec_of(n as nat));
        }
        r
    } else {
        let mut r = u32_to_dec(n / 10);
        r.append(digit_str(n % 10));
        proof {
            assert(r@ =~= dec_of(n as nat));
        }
        r
    }
}

// ----------------------------------------------------------------------------
// Hex rendering (lower case)
// ----------------------------------------------------------------------------

pub open spec fn hex_char(d: nat) -> char {
    if d < 10 {
        digit_char(d)
    } else if d == 10 {
        'a'
    } else if d == 11 {
        'b'
    } else if d == 12 {
        'c'
    } else if d == 13 {
        'd'
    } else if d == 14 {
        'e'
    } else {
        'f'
    }
}

pub open spec fn hex_of_byte(b: u8) -> Seq<char> {
    seq![hex_char(b as nat / 16), hex_char(b as nat % 16)]
}

/// The lower-case hex rendering of a byte string, two digits per byte.
pub open spec fn hex_of(s: Seq<u8>) -> Seq<char>
    decreases s.len(),
{
    if s.len() == 0 {
        Seq::<char>::empty()
    } else {
        hex_of(s.drop_last()) + hex_of_byte(s.last())
    }
}

/// The hex rendering of a byte string is two characters per byte.
pub proof fn lemma_hex_of_len(s: Seq<u8>)
    ensures
        hex_of(s).len() == 2 * s.len(),
    decreases s.len(),
{
    if s.len() > 0 {
        lemma_hex_of_len(s.drop_last());
    }
}

fn hex_str(d: u32) -> (r: &'static str)
    requires
        d < 16,
    ensures
        r@ =~= seq![hex_char(d as nat)],
{
    proof {
        reveal_strlit("a");
        reveal_strlit("b");
        reveal_strlit("c");
        reveal_strlit("d");
        reveal_strlit("e");
        reveal_strlit("f");
    }
    if d < 10 {
        digit_str(d)
    } else if d == 10 {
        "a"
    } else if d == 11 {
        "b"
    } else if d == 12 {
        "c"
    } else if d == 13 {
        "d"
    } else if d == 14 {
        "e"
    } else {
        "f"
    }
}

/// Renders a byte string as lower-case hex.
pub fn bytes_to_hex(s: &[u8]) -> (r: String)
    ensures
        r@ == hex_of(s@),
{
    let mut r = String::new();
    let mut i: usize = 0;
    while i < s.len()
        invariant
            0 <= i <= s@.len(),
            r@ == hex_of(s@.take(i as int)),
        decreases s@.len() - i,
    {
        let b = s[i];
        r.append(hex_str((b / 16) as u32));
        r.append(hex_str((b % 16) as u32));
        proof {
            assert(s@.take(i as int + 1).drop_last() =~= s@.take(i as int));
            assert(s@.take(i as int + 1).last() == s@[i as int]);
            assert(r@ =~= hex_of(s@.take(i as int + 1)));
        }
        i = i + 1;
    }
    proof {
        assert(s@.take(s@.len() as int) =~= s@);
    }
    r
}

// ----------------------------------------------------------------------------
// Decimal parsing
// ----------------------------------------------------------------------------

pub open spec fn is_dec_digit(b: u8) -> bool {
    48 <= b <= 57
}

pub open spec fn all_dec_digits(s: Seq<u8>) -> bool {
    forall|i: int| 0 <= i < s.len() ==> is_dec_digit(#[trigger] s[i])
}

/// The numeric value of a digit string, most significant digit first.
pub open spec fn dec_val(s: Seq<u8>) -> nat
    decreases s.len(),
{
    if s.len() == 0 {
        0
    } else {
        dec_val(s.drop_last()) * 10 + (s.last() - 48) as nat
    }
}

/// What a decimal field parses to: the value, if the string is a non-empty
/// run of decimal digits whose value fits in a `u64`.
pub open spec fn parse_u64_spec(s: Seq<u8>) -> Option<u64> {
    if s.len() > 0 && all_dec_digits(s) && dec_val(s) <= u64::MAX {
        Some(dec_val(s) as u64)
    } else {
        None
    }
}

pub open spec fn parse_u128_spec(s: Seq<u8>) -> Option<u128> {
    if s.len() > 0 && all_dec_digits(s) && dec_val(s) <= u128::MAX {
        Some(dec_val(s) as u128)
    } else {
        None
    }
}

proof fn lemma_dec_val_extend_ge(s: Seq<u8>, i: int)
    requires
        0 <= i <= s.len(),
    ensures
        dec_val(s) >= dec_val(s.take(i)),
    decreases s.len() - i,
{
    if i == s.len() {
        assert(s.take(i) =~= s);
    } else {
        lemma_dec_val_extend_ge(s, i + 1);
        assert(s.take(i + 1).drop_last() =~= s.take(i));
        assert(dec_val(s.take(i + 1)) == dec_val(s.take(i)) * 10 + (s.take(i + 1).last() - 48) as nat);
    }
}

/// Parses a non-empty run of decimal digits into a `u64`.
pub fn parse_u64(s: &[u8]) -> (r: Option<u64>)
    ensures
        r == parse_u64_spec(s@),
{
    if s.len() == 0 {
        return None;
    }
    let mut acc: u64 = 0;
    let mut i: usize = 0;
    while i < s.len()
        invariant
            0 <= i <= s@.len(),
            s@.len() > 0,
            all_dec_digits(s@.take(i as int)),
            acc as nat == dec_val(s@.take(i as int)),
        decreases s@.len() - i,
    {
        let b = s[i];
        if b < 48 || b > 57 {
            proof {
                assert(!is_dec_digit(s@[i as int]));
            }
            return None;
        }
        let d: u64 = (b - 48) as u64;
        proof {
            assert(s@.take(i as int + 1).drop_last() =~= s@.take(i as int));
            assert(dec_val(s@.take(i as int + 1)) == acc as nat * 10 + d as nat);
        }
        let acc10 = match acc.checked_mul(10) {
            Some(v) => v,
            None => {
                proof {
                    lemma_dec_val_extend_ge(s@, i as int + 1);
                }
                return None;
            },
        };
        acc = match acc10.checked_add(d) {
            Some(v) => v,
            None => {
                proof {
                    lemma_dec_val_extend_ge(s@, i as int + 1);
                }
                return None;
            },
        };
        proof {
            assert forall|j: int| 0 <= j < i as int + 1 implies is_dec_digit(
                #[trigger] s@.take(i as int + 1)[j],
            ) by {
                if j < i as int {
                    assert(s@.take(i as int + 1)[j] == s@.take(i as int)[j]);
                }
            }
        }
        i = i + 1;
    }
    proof {
        assert(s@.take(s@.len() as int) =~= s@);
    }
    Some(acc)
}

/// Parses a non-empty run of decimal digits into a `u128`.
pub fn parse_u128(s: &[u8]) -> (r: Option<u128>)
    ensures
        r == parse_u128_spec(s@),
{
    if s.len() == 0 {
        return None;
    }
    let mut acc: u128 = 0;
    let mut i: usize = 0;
    while i < s.len()
        invariant
            0 <= i <= s@.len(),
            s@.len() > 0,
            all_dec_digits(s@.take(i as int)),
            acc as nat == dec_val(s@.take(i as int)),
        decreases s@.len() - i,
    {
        let b = s[i];
        if b < 48 || b > 57 {
            proof {
                assert(!is_dec_digit(s@[i as int]));
            }
            return None;
        }
        let d: u128 = (b - 48) as u128;
        proof {
            assert(s@.take(i as int + 1).drop_last() =~= s@.take(i as int));
            assert(dec_val(s@.take(i as int + 1)) == acc as nat * 10 + d as nat);
        }
        let acc10 = match acc.checked_mul(10) {
            Some(v) => v,
            None => {
                proof {
                    lemma_dec_val_extend_ge(s@, i as int + 1);
                }
                return None;
            },
        };
        acc = match acc10.checked_add(d) {
            Some(v) => v,
            None => {
                proof {
                    lemma_dec_val_extend_ge(s@, i as int + 1);
                }
                return None;
            },
        };
        proof {
            assert forall|j: int| 0 <= j < i as int + 1 implies is_dec_digit(
                #[trigger] s@.take(i as int + 1)[j],
            ) by {
                if j < i as int {
                    assert(s@.take(i as int + 1)[j] == s@.take(i as int)[j]);
                }
            }
        }
        i = i + 1;
    }
    proof {
        assert(s@.take(s@.len() as int) =~= s@);
    }
    Some(acc)
}

// ----------------------------------------------------------------------------
// Hex parsing (case-insensitive, optional "0x" prefix)
// ----------------------------------------------------------------------------

pub open spec fn is_hex_digit(b: u8) -> bool {
    (48 <= b <= 57) || (97 <= b <= 102) || (65 <= b <= 70)
}

pub open spec fn hex_val_of(b: u8) -> nat {
    if 48 <= b <= 57 {
        (b - 48) as nat
    } else if 97 <= b <= 102 {
        (b - 87) as nat
    } else if 65 <= b <= 70 {
        (b - 55) as nat
    } else {
        0
    }
}

pub open spec fn all_hex_digits(s: Seq<u8>) -> bool {
    forall|i: int| 0 <= i < s.len() ==> is_hex_digit(#[trigger] s[i])
}

/// Drops a leading `"0x"`, if present.
pub open spec fn strip_0x(s: Seq<u8>) -> Seq<u8> {
    if s.len() >= 2 && s[0] == 48 && s[1] == 120 {
        s.skip(2)
    } else {
        s
    }
}

/// The bytes encoded by an even-length run of hex digits.
pub open spec fn hex_pairs_val(s: Seq<u8>) -> Seq<u8> {
    Seq::new((s.len() / 2) as nat, |i: int| (hex_val_of(s[2 * i]) * 16 + hex_val_of(s[2 * i + 1])) as u8)
}

/// What a hex blob field parses to: the bytes, if after stripping an optional
/// `"0x"` the string is an even-length run of hex digits (possibly empty).
pub open spec fn parse_hex_spec(s: Seq<u8>) -> Option<Seq<u8>> {
    let t = strip_0x(s);
    if t.len() % 2 == 0 && all_hex_digits(t) {
        Some(hex_pairs_val(t))
    } else {
        None
    }
}

/// What an address field parses to: 20 bytes, if after stripping an optional
/// `"0x"` the string is exactly 40 hex digits.
pub open spec fn parse_address_spec(s: Seq<u8>) -> Option<Seq<u8>> {
    let t = strip_0x(s);
    if t.len() == 40 && all_hex_digits(t) {
        Some(hex_pairs_val(t))
    } else {
        None
    }
}

fn hex_digit_val(b: u8) -> (r: Option<u8>)
    ensures
        match r {
            Some(v) => is_hex_digit(b) && v as nat == hex_val_of(b),
            None => !is_hex_digit(b),
        },
{
    if 48 <= b && b <= 57 {
        Some(b - 48)
    } else if 97 <= b && b <= 102 {
        Some(b - 87)
    } else if 65 <= b && b <= 70 {
        Some(b - 55)
    } else {
        None
    }
}

fn parse_hex_digits(t: &[u8]) -> (r: Option<Vec<u8>>)
    requires
        t@.len() % 2 == 0,
    ensures
        match r {
            Some(v) => all_hex_digits(t@) && v@ == hex_pairs_val(t@),
            None => !all_hex_digits(t@),
        },
{
    let mut out: Vec<u8> = Vec::new();
    let mut i: usize = 0;
    while i + 1 < t.len()
        invariant
            t@.len() % 2 == 0,
            0 <= i <= t@.len(),
            i % 2 == 0,
            out@.len() == i / 2,
            forall|j: int|
                0 <= j < i / 2 ==> #[trigger] out@[j] == (hex_val_of(t@[2 * j]) * 16 + hex_val_of(
                    t@[2 * j + 1],
                )) as u8,
            forall|j: int| 0 <= j < i ==> is_hex_digit(#[trigger] t@[j]),
        decreases t@.len() - i,
    {
        let h = match hex_digit_val(t[i]) {
            Some(v) => v,
            None => {
                return None;
            },
        };
        let l = match hex_digit_val(t[i + 1]) {
            Some(v) => v,
            None => {
                return None;
            },
        };
        out.push(h * 16 + l);
        i = i + 2;
    }
    proof {
        assert(i == t@.len());
        assert(out@ =~= hex_pairs_val(t@));
    }
    Some(out)
}

/// Parses a hex blob with an optional `"0x"` prefix, case-insensitive.
pub fn parse_hex(s: &[u8]) -> (r: Option<Vec<u8>>)
    ensures
        match r {
            Some(v) => parse_hex_spec(s@) == Some(v@),
            None => parse_hex_spec(s@) is None,
        },
{
    let t: &[u8] = if s.len() >= 2 && s[0] == 48 && s[1] == 120 {
        &s[2..s.len()]
    } else {
        s
    };
    proof {
        assert(t@ =~= strip_0x(s@));
    }
    if t.len() % 2 != 0 {
        return None;
    }
    parse_hex_digits(t)
}

/// Parses a 20-byte address: 40 hex digits with an optional `"0x"` prefix,
/// case-insensitive.
pub fn parse_address(s: &[u8]) -> (r: Option<Vec<u8>>)
    ensures
        match r {
            Some(v) => parse_address_spec(s@) == Some(v@) && v@.len() == 20,
            None => parse_address_spec(s@) is None,
        },
{
    let t: &[u8] = if s.len() >= 2 && s[0] == 48 && s[1] == 120 {
        &s[2..s.len()]
    } else {
        s
    };
    proof {
        assert(t@ =~= strip_0x(s@));
    }
    if t.len() != 40 {
        return None;
    }
    parse_hex_digits(t)
}

// ----------------------------------------------------------------------------
// Big-endian 32-bit reads
// ----------------------------------------------------------------------------

/// The big-endian value of the four bytes at `off`.
pub open spec fn be32_at(s: Seq<u8>, off: int) -> nat {
    s[off] as nat * 0x1000000 + s[off + 1] as nat * 0x10000 + s[off + 2] as nat * 0x100 + s[off
        + 3] as nat
}

/// Reads the big-endian `u32` at `off`.
pub fn read_be32(s: &[u8], off: usize) -> (r: u32)
    requires
        off + 4 <= s@.len(),
    ensures
        r as nat == be32_at(s@, off as int),
{
    (s[off] as u32) * 0x1000000 + (s[off + 1] as u32) * 0x10000 + (s[off + 2] as u32) * 0x100 + (
    s[off + 3] as u32)
}

} // verus!
