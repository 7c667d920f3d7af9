//! Hex-encoded fields of the wire protocol: byte fields arrive as hex text
//! and two numeric fields of a work submission arrive as hex text too. The
//! byte decoding is delegated to the hex crate behind an exact contract;
//! the numeric parsing is implemented and verified here.

use vstd::prelude::*;
use vstd::string::StrSliceExecFns;

verus! {

pub open spec fn is_hex_digit(c: char) -> bool {
    (48 <= c as int && c as int <= 57)  // '0' ..= '9'
    || (97 <= c as int && c as int <= 102)  // 'a' ..= 'f'
    || (65 <= c as int && c as int <= 70)  // 'A' ..= 'F'
}

pub open spec fn hex_val(c: char) -> int {
    if 48 <= c as int && c as int <= 57 {
        c as int - 48
    } else if 97 <= c as int && c as int <= 102 {
        c as int - 97 + 10
    } else {
        c as int - 65 + 10
    }
}

pub open spec fn all_hex(s: Seq<char>) -> bool {
    forall|i: int| 0 <= i < s.len() ==> is_hex_digit(#[trigger] s[i])
}

/// The byte written as the two hex digits `hi`, `lo`.
pub open spec fn hex_byte(hi: char, lo: char) -> u8 {
    (hex_val(hi) * 16 + hex_val(lo)) as u8
}

/// What a hex text field decodes to: an even run of hex digits (either
/// case) decodes pairwise to bytes; anything else fails.
pub open spec fn hex_decoded(s: Seq<char>) -> Option<Seq<u8>> {
    if s.len() % 2 == 0 && all_hex(s) {
        Some(Seq::new((s.len() / 2) as nat, |i: int| hex_byte(s[2 * i], s[2 * i + 1])))
    } else {
        None
    }
}

/// Relies on `hex::decode` (hex crate): both cases of digit are accepted,
/// an odd length or a non-digit is an error, and each digit pair yields one
/// byte, high digit first.
#[verifier::external_body]
pub(crate) fn decode_hex(s: &str) -> (r: Option<Vec<u8>>)
    ensures
        match r {
            Some(v) => hex_decoded(s@) == Some(v@),
            None => hex_decoded(s@) is None,
        },
{
    hex::decode(s).ok()
}

/// The unsigned value of a run of hex digits, high digit first.
pub open spec fn hex_digits_value(s: Seq<char>) -> int
    decreases s.len(),
{
    if s.len() == 0 {
        0
    } else {
        hex_digits_value(s.drop_last()) * 16 + hex_val(s.last())
    }
}

/// What the protocol's hex numeric fields parse to: an optional leading
/// plus sign, then at least one hex digit, and a value that fits in 32
/// bits; anything else fails.
pub open spec fn spec_hex_u32(s: Seq<char>) -> Option<u32> {
    let digits = if s.len() > 0 && s[0] == '+' {
        s.drop_first()
    } else {
        s
    };
    if digits.len() > 0 && all_hex(digits) && hex_digits_value(digits) <= u32::MAX {
        Some(hex_digits_value(digits) as u32)
    } else {
        None
    }
}

proof fn lemma_hex_value_nonneg(s: Seq<char>)
    requires
        all_hex(s),
    ensures
        hex_digits_value(s) >= 0,
    decreases s.len(),
{
    if s.len() > 0 {
        assert(all_hex(s.drop_last()));
        lemma_hex_value_nonneg(s.drop_last());
    }
}

proof fn lemma_hex_value_step(s: Seq<char>, i: int)
    requires
        0 <= i < s.len(),
    ensures
        hex_digits_value(s.subrange(0, i + 1)) == hex_digits_value(s.subrange(0, i)) * 16 + hex_val(s[i]),
{
    assert(s.subrange(0, i + 1).drop_last() =~= s.subrange(0, i));
    assert(s.subrange(0, i + 1).last() == s[i]);
}

/// Appending digits never shrinks the value: the value of a prefix bounds
/// the value of the whole run from below.
proof fn lemma_hex_value_prefix_le(s: Seq<char>, i: int)
    requires
        0 <= i <= s.len(),
        all_hex(s),
    ensures
        hex_digits_value(s.subrange(0, i)) <= hex_digits_value(s),
    decreases s.len() - i,
{
    if i == s.len() {
        assert(s.subrange(0, i) =~= s);
    } else {
        lemma_hex_value_step(s, i);
        assert(all_hex(s.subrange(0, i)));
        lemma_hex_value_nonneg(s.subrange(0, i));
        assert(is_hex_digit(s[i]));
        assert(hex_val(s[i]) >= 0);
        assert(hex_digits_value(s.subrange(0, i)) <= hex_digits_value(s.subrange(0, i + 1)));
        lemma_hex_value_prefix_le(s, i + 1);
    }
}

fn is_hex_digit_exec(c: char) -> (r: bool)
    ensures
        r == is_hex_digit(c),
{
    let v = c as u32;
    (48 <= v && v <= 57) || (97 <= v && v <= 102) || (65 <= v && v <= 70)
}

fn hex_val_exec(c: char) -> (d: u8)
    requires
        is_hex_digit(c),
    ensures
        d as int == hex_val(c),
        d <= 15,
{
    let v = c as u32;
    if 48 <= v && v <= 57 {
        (v - 48) as u8
    } else if 97 <= v && v <= 102 {
        (v - 97 + 10) as u8
    } else {
        (v - 65 + 10) as u8
    }
}

/// Parses a hex numeric field: an optional leading plus sign, then hex
/// digits, failing on an empty run, a stray character or a value past 32
/// bits — exactly the tolerant rule the classifier's defaults rest on.
pub fn parse_hex_u32(s: &str) -> (r: Option<u32>)
    ensures
        r == spec_hex_u32(s@),
{
    let n = s.unicode_len();
    let mut start: usize = 0;
    if n > 0 && s.get_char(0) == '+' {
        start = 1;
    }
    let ghost digits = if s@.len() > 0 && s@[0] == '+' {
        s@.drop_first()
    } else {
        s@
    };
    proof {
        assert(digits =~= s@.subrange(start as int, n as int));
    }
    if start == n {
        return None;
    }
    let mut acc: u32 = 0;
    let mut k: usize = start;
    while k < n
        invariant
            start <= k <= n,
            n == s@.len(),
            digits == (if s@.len() > 0 && s@[0] == '+' {
                s@.drop_first()
            } else {
                s@
            }),
            digits =~= s@.subrange(start as int, n as int),
            all_hex(s@.subrange(start as int, k as int)),
            acc as int == hex_digits_value(s@.subrange(start as int, k as int)),
        decreases n - k,
    {
        let c = s.get_char(k);
        let ghost seen = s@.subrange(start as int, k as int);
        if !is_hex_digit_exec(c) {
            proof {
                assert(digits[k - start] == c);
                assert(!all_hex(digits));
                assert(spec_hex_u32(s@) is None);
            }
            return None;
        }
        let d = hex_val_exec(c);
        let wide: u64 = acc as u64 * 16 + d as u64;
        proof {
            assert(digits.subrange(0, k - start) =~= seen);
            assert(digits.subrange(0, k - start + 1) =~= seen.push(c));
            assert(digits[k - start] == c);
            lemma_hex_value_step(digits, k - start);
            assert(hex_digits_value(digits.subrange(0, k - start + 1)) == wide as int);
        }
        if wide > u32::MAX as u64 {
            proof {
                if all_hex(digits) {
                    lemma_hex_value_prefix_le(digits, k - start + 1);
                    assert(hex_digits_value(digits) > u32::MAX);
                    assert(spec_hex_u32(s@) is None);
                } else {
                    assert(spec_hex_u32(s@) is None);
                }
                assert(spec_hex_u32(s@) is None);
            }
            return None;
        }
        acc = wide as u32;
        proof {
            assert(s@.subrange(start as int, k + 1) =~= seen.push(c));
            assert(all_hex(seen.push(c)));
        }
        k += 1;
    }
    proof {
        assert(s@.subrange(start as int, n as int) =~= digits);
        assert(all_hex(digits));
        assert(hex_digits_value(digits) == acc as int);
    }
    Some(acc)
}

} // verus!
