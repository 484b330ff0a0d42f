//! Hexadecimal ingestion: turns a user-supplied hex string — optionally
//! wrapped in whitespace and `0x` prefixes — into the raw byte buffer the
//! decoder and analyzer consume.

use vstd::prelude::*;
use vstd::string::StrSliceExecFns;

verus! {

/// Why a hex string could not be decoded.
#[derive(Clone, Copy, Debug, PartialEq, Eq, Structural)]
pub enum HexError {
    /// Nothing was left after trimming whitespace and `0x` prefixes.
    Empty,
    /// The remaining hex digits were odd in number.
    OddLength,
    /// A remaining character was not a hexadecimal digit.
    InvalidCharacter,
}

/// The whitespace characters trimmed from either end of the input: those
/// with the Unicode White_Space property, the set `str::trim` removes.
pub open spec fn is_space_char(c: char) -> bool {
    let v = c as u32;
    ||| v == 0x20
    ||| 0x09 <= v <= 0x0d
    ||| v == 0x85
    ||| v == 0xa0
    ||| v == 0x1680
    ||| 0x2000 <= v <= 0x200a
    ||| v == 0x2028
    ||| v == 0x2029
    ||| v == 0x202f
    ||| v == 0x205f
    ||| v == 0x3000
}

/// The input with whitespace removed from both ends.
pub open spec fn trim_spaces(s: Seq<char>) -> Seq<char>
    decreases s.len(),
{
    if s.len() == 0 {
        s
    } else if is_space_char(s.first()) {
        trim_spaces(s.drop_first())
    } else if is_space_char(s.last()) {
        trim_spaces(s.drop_last())
    } else {
        s
    }
}

/// The input with every leading `0x` pair removed.
pub open spec fn strip_hex_prefix(s: Seq<char>) -> Seq<char>
    decreases s.len(),
{
    if s.len() >= 2 && s[0] == '0' && s[1] == 'x' {
        strip_hex_prefix(s.skip(2))
    } else {
        s
    }
}

/// The digits that remain once whitespace and `0x` prefixes are gone: what
/// the decoder actually reads.
pub open spec fn cleaned_input(s: Seq<char>) -> Seq<char> {
    strip_hex_prefix(trim_spaces(s))
}

/// Whether a character is a hexadecimal digit, either case.
pub open spec fn is_hex_digit(c: char) -> bool {
    let v = c as u32;
    (48 <= v <= 57) || (97 <= v <= 102) || (65 <= v <= 70)
}

/// The numeric value of a hexadecimal digit character, either case.
pub open spec fn hex_char_val(c: char) -> nat {
    let v = c as u32;
    if 48 <= v <= 57 {
        (v - 48) as nat
    } else if 97 <= v <= 102 {
        (v - 87) as nat
    } else if 65 <= v <= 70 {
        (v - 55) as nat
    } else {
        0
    }
}

/// Whether every character of the sequence is a hexadecimal digit.
pub open spec fn all_hex_digits(s: Seq<char>) -> bool {
    forall|i: int| 0 <= i < s.len() ==> is_hex_digit(#[trigger] s[i])
}

/// The bytes an even-length sequence of hex digits denotes: one byte per
/// digit pair, high digit first.
pub open spec fn spec_hex_bytes(s: Seq<char>) -> Seq<u8> {
    Seq::new((s.len() / 2) as nat, |i: int| (16 * hex_char_val(s[2 * i]) + hex_char_val(s[2 * i + 1])) as u8)
}

/// Executable test for the trimmed whitespace characters.
fn is_space(c: char) -> (r: bool)
    ensures
        r == is_space_char(c),
{
    let v = c as u32;
    v == 0x20 || (0x09 <= v && v <= 0x0d) || v == 0x85 || v == 0xa0 || v == 0x1680 || (0x2000 <= v
        && v <= 0x200a) || v == 0x2028 || v == 0x2029 || v == 0x202f || v == 0x205f || v == 0x3000
}

/// Executable test for a hexadecimal digit character.
fn is_hex_digit_char(c: char) -> (r: bool)
    ensures
        r == is_hex_digit(c),
{
    let v = c as u32;
    (48 <= v && v <= 57) || (97 <= v && v <= 102) || (65 <= v && v <= 70)
}

/// Executable value of a hexadecimal digit character.
fn hex_val(c: char) -> (r: u8)
    requires
        is_hex_digit(c),
    ensures
        r as nat == hex_char_val(c),
        r < 16,
{
    let v = c as u32;
    if v <= 57 {
        (v - 48) as u8
    } else if v >= 97 {
        (v - 87) as u8
    } else {
        (v - 55) as u8
    }
}

/// Decodes a hexadecimal string into bytes.
///
/// Whitespace at either end and any leading `0x` pairs are ignored.  What
/// remains must be non-empty, even in length, and all hexadecimal digits of
/// either case; each digit pair becomes one byte, high digit first.  The
/// three error cases are checked in that order.
#[verifier::rlimit(60)]
pub fn decode_hex(s: &str) -> (r: Result<Vec<u8>, HexError>)
    ensures
        ({
            let t = cleaned_input(s@);
            &&& t.len() == 0 ==> r == Err::<Vec<u8>, HexError>(HexError::Empty)
            &&& t.len() > 0 && t.len() % 2 != 0 ==> r == Err::<Vec<u8>, HexError>(
                HexError::OddLength,
            )
            &&& t.len() > 0 && t.len() % 2 == 0 && !all_hex_digits(t) ==> r == Err::<
                Vec<u8>,
                HexError,
            >(HexError::InvalidCharacter)
            &&& t.len() > 0 && t.len() % 2 == 0 && all_hex_digits(t) ==> (r matches Ok(v) && v@
                == spec_hex_bytes(t))
        }),
{
    let n = s.unicode_len();
    let mut start: usize = 0;
    let mut end: usize = n;
    proof {
        assert(s@.subrange(0, n as int) =~= s@);
    }
    while start < end && is_space(s.get_char(start))
        invariant
            start <= end <= s@.len(),
            n == s@.len(),
            trim_spaces(s@) == trim_spaces(s@.subrange(start as int, end as int)),
        decreases end - start,
    {
        proof {
            let t = s@.subrange(start as int, end as int);
            assert(t.first() == s@[start as int]);
            assert(t.drop_first() =~= s@.subrange(start as int + 1, end as int));
        }
        start = start + 1;
    }
    while end > start && is_space(s.get_char(end - 1))
        invariant
            start <= end <= s@.len(),
            n == s@.len(),
            trim_spaces(s@) == trim_spaces(s@.subrange(start as int, end as int)),
            start < end ==> !is_space_char(s@[start as int]),
        decreases end,
    {
        proof {
            let t = s@.subrange(start as int, end as int);
            assert(t.first() == s@[start as int]);
            assert(t.last() == s@[end as int - 1]);
            assert(t.drop_last() =~= s@.subrange(start as int, end as int - 1));
        }
        end = end - 1;
    }
    proof {
        let t = s@.subrange(start as int, end as int);
        if t.len() > 0 {
            assert(t.first() == s@[start as int]);
            assert(t.last() == s@[end as int - 1]);
        }
        assert(trim_spaces(t) == t);
    }
    while end - start >= 2 && s.get_char(start) == '0' && s.get_char(start + 1) == 'x'
        invariant
            start <= end <= s@.len(),
            n == s@.len(),
            cleaned_input(s@) == strip_hex_prefix(s@.subrange(start as int, end as int)),
        decreases end - start,
    {
        proof {
            let t = s@.subrange(start as int, end as int);
            assert(t[0] == s@[start as int]);
            assert(t[1] == s@[start as int + 1]);
            assert(t.skip(2) =~= s@.subrange(start as int + 2, end as int));
        }
        start = start + 2;
    }
    let ghost t = s@.subrange(start as int, end as int);
    proof {
        assert(strip_hex_prefix(t) == t);
        assert(cleaned_input(s@) == t);
    }
    let len = end - start;
    if len == 0 {
        return Err(HexError::Empty);
    }
    if len % 2 != 0 {
        return Err(HexError::OddLength);
    }
    let mut idx = start;
    while idx < end
        invariant
            start <= idx <= end <= s@.len(),
            t == s@.subrange(start as int, end as int),
            cleaned_input(s@) == t,
            len == end - start,
            len > 0,
            len % 2 == 0,
            forall|j: int| start <= j < idx ==> is_hex_digit(#[trigger] s@[j]),
        decreases end - idx,
    {
        let c = s.get_char(idx);
        if !is_hex_digit_char(c) {
            proof {
                assert(t[idx - start as int] == s@[idx as int]);
                assert(!all_hex_digits(t));
            }
            return Err(HexError::InvalidCharacter);
        }
        idx = idx + 1;
    }
    proof {
        assert forall|i: int| 0 <= i < t.len() implies is_hex_digit(#[trigger] t[i]) by {
            assert(t[i] == s@[start + i]);
        }
    }
    let half = len / 2;
    let mut out: Vec<u8> = Vec::new();
    let mut k: usize = 0;
    while k < half
        invariant
            out@.len() == k <= half,
            half == len / 2,
            len == end - start,
            len > 0,
            len % 2 == 0,
            start <= end <= s@.len(),
            t == s@.subrange(start as int, end as int),
            cleaned_input(s@) == t,
            all_hex_digits(t),
            forall|j: int| 0 <= j < k ==> out@[j] == spec_hex_bytes(t)[j],
        decreases half - k,
    {
        proof {
            assert(t[2 * k as int] == s@[start + 2 * k]);
            assert(t[2 * k as int + 1] == s@[start + 2 * k + 1]);
        }
        let c_hi = s.get_char(start + 2 * k);
        let c_lo = s.get_char(start + 2 * k + 1);
        let hi = hex_val(c_hi);
        let lo = hex_val(c_lo);
        out.push(16 * hi + lo);
        k = k + 1;
    }
    proof {
        assert(out@ =~= spec_hex_bytes(t));
    }
    Ok(out)
}

} // verus!
