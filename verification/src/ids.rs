//! Stream and event identifiers travel through this crate as the 128-bit
//! value of their UUID.  Here are the two textual forms the pipeline
//! meets: the canonical hyphenated rendering, and parsing of both the
//! hyphenated and the plain 32-digit form, upper or lower case.

use vstd::prelude::*;

use crate::text::{hex_digit_str, spec_hex_digit};

verus! {

/// The value of one hexadecimal digit character, either case.
pub open spec fn spec_hex_val(c: char) -> Option<nat> {
    if 48 <= c as u32 <= 57 {
        Some((c as u32 - 48) as nat)
    } else if 97 <= c as u32 <= 102 {
        Some((c as u32 - 87) as nat)
    } else if 65 <= c as u32 <= 70 {
        Some((c as u32 - 55) as nat)
    } else {
        None
    }
}

/// The value of a hexadecimal digit string, most significant digit first;
/// nothing when any character is not a hexadecimal digit.
pub open spec fn spec_hex_parse(s: Seq<char>) -> Option<nat>
    decreases s.len(),
{
    if s.len() == 0 {
        Some(0)
    } else {
        match (spec_hex_parse(s.drop_last()), spec_hex_val(s.last())) {
            (Some(hi), Some(lo)) => Some(hi * 16 + lo),
            _ => None,
        }
    }
}

/// `n` in lower-case hexadecimal, zero-padded to `digits` digits.
pub open spec fn spec_hex_fixed(n: nat, digits: nat) -> Seq<char>
    decreases digits,
{
    if digits == 0 {
        Seq::empty()
    } else {
        spec_hex_fixed(n / 16, (digits - 1) as nat).push(spec_hex_digit(n % 16))
    }
}

/// Formats `n` in lower-case hexadecimal, zero-padded to `digits` digits.
pub fn hex_fixed(n: u128, digits: u32) -> (r: String)
    ensures
        r@ == spec_hex_fixed(n as nat, digits as nat),
    decreases digits,
{
    if digits == 0 {
        String::new()
    } else {
        let mut s = hex_fixed(n / 16, digits - 1);
        s.append(hex_digit_str((n % 16) as u32));
        proof {
            assert(s@ =~= spec_hex_fixed((n as nat) / 16, (digits - 1) as nat).push(
                spec_hex_digit((n as nat) % 16),
            ));
        }
        s
    }
}

/// The canonical hyphenated rendering of a UUID value: five groups of 8,
/// 4, 4, 4 and 12 lower-case hexadecimal digits.
pub open spec fn spec_uuid_str(n: nat) -> Seq<char> {
    let h = spec_hex_fixed(n, 32);
    h.subrange(0, 8) + "-"@ + h.subrange(8, 12) + "-"@ + h.subrange(12, 16) + "-"@ + h.subrange(
        16,
        20,
    ) + "-"@ + h.subrange(20, 32)
}

/// Renders a UUID value in its canonical hyphenated form.
pub fn uuid_to_string(n: u128) -> (r: String)
    ensures
        r@ == spec_uuid_str(n as nat),
{
    let h = hex_fixed(n, 32);
    proof {
        lemma_hex_fixed_len(n as nat, 32);
    }
    let hs = h.as_str();
    let mut out = String::new();
    out.append(hs.substring_char(0, 8));
    out.append("-");
    out.append(hs.substring_char(8, 12));
    out.append("-");
    out.append(hs.substring_char(12, 16));
    out.append("-");
    out.append(hs.substring_char(16, 20));
    out.append("-");
    out.append(hs.substring_char(20, 32));
    proof {
        assert(spec_hex_fixed(n as nat, 32).len() == 32) by {
            lemma_hex_fixed_len(n as nat, 32);
        }
        assert(out@ =~= spec_uuid_str(n as nat));
    }
    out
}

proof fn lemma_hex_fixed_len(n: nat, digits: nat)
    ensures
        spec_hex_fixed(n, digits).len() == digits,
    decreases digits,
{
    if digits > 0 {
        lemma_hex_fixed_len(n / 16, (digits - 1) as nat);
    }
}

/// Which UUID value a text denotes: either 32 hexadecimal digits, or the
/// hyphenated 8-4-4-4-12 form, upper or lower case.
pub open spec fn spec_uuid_parse(s: Seq<char>) -> Option<nat> {
    if s.len() == 32 {
        spec_hex_parse(s)
    } else if s.len() == 36 && s[8] == '-' && s[13] == '-' && s[18] == '-' && s[23] == '-' {
        spec_hex_parse(
            s.subrange(0, 8) + s.subrange(9, 13) + s.subrange(14, 18) + s.subrange(19, 23)
                + s.subrange(24, 36),
        )
    } else {
        None
    }
}

fn parse_hex_32(s: &str) -> (r: Option<u128>)
    requires
        s@.len() == 32,
    ensures
        match r {
            Some(v) => spec_hex_parse(s@) == Some(v as nat),
            None => spec_hex_parse(s@) is None,
        },
{
    let mut acc: u128 = 0;
    let mut i: usize = 0;
    proof {
        assert(s@.take(0) =~= Seq::<char>::empty());
    }
    while i < 32
        invariant
            s@.len() == 32,
            0 <= i <= 32,
            spec_hex_parse(s@.take(i as int)) == Some(acc as nat),
            acc < pow16(i as nat),
        decreases 32 - i,
    {
        let c = s.get_char(i);
        let code = c as u32;
        let d: u128 = if 48 <= code && code <= 57 {
            (code - 48) as u128
        } else if 97 <= code && code <= 102 {
            (code - 87) as u128
        } else if 65 <= code && code <= 70 {
            (code - 55) as u128
        } else {
            proof {
                assert(spec_hex_val(s@[i as int]) is None);
                lemma_hex_parse_extends_none(s@, i as int);
            }
            return None;
        };
        proof {
            assert(s@.take(i + 1).drop_last() =~= s@.take(i as int));
            assert(s@.take(i + 1).last() == s@[i as int]);
            assert(spec_hex_val(s@[i as int]) == Some(d as nat));
            assert(pow16(i as nat + 1) == 16 * pow16(i as nat));
            lemma_pow16_mono(i as nat + 1, 32);
            lemma_pow16_32();
        }
        acc = acc * 16 + d;
        i = i + 1;
    }
    proof {
        assert(s@.take(32) =~= s@);
    }
    Some(acc)
}

/// Sixteen to the `k`.
pub open spec fn pow16(k: nat) -> nat
    decreases k,
{
    if k == 0 {
        1
    } else {
        16 * pow16((k - 1) as nat)
    }
}

proof fn lemma_pow16_mono(a: nat, b: nat)
    requires
        a <= b,
    ensures
        pow16(a) <= pow16(b),
    decreases b,
{
    if a < b {
        lemma_pow16_mono(a, (b - 1) as nat);
    }
}

proof fn lemma_pow16_32()
    ensures
        pow16(32) == 0x100000000000000000000000000000000,
{
    reveal_with_fuel(pow16, 33);
}

proof fn lemma_hex_parse_extends_none(s: Seq<char>, i: int)
    requires
        0 <= i < s.len(),
        spec_hex_val(s[i]) is None,
    ensures
        spec_hex_parse(s) is None,
    decreases s.len(),
{
    if i == s.len() - 1 {
    } else {
        assert(s.drop_last()[i] == s[i]);
        lemma_hex_parse_extends_none(s.drop_last(), i);
    }
}

/// Parses a UUID text in either accepted form into its 128-bit value.
pub fn uuid_from_str(s: &str) -> (r: Option<u128>)
    ensures
        match r {
            Some(v) => spec_uuid_parse(s@) == Some(v as nat),
            None => spec_uuid_parse(s@) is None,
        },
{
    let n = s.unicode_len();
    if n == 32 {
        parse_hex_32(s)
    } else if n == 36 {
        if s.get_char(8) == '-' && s.get_char(13) == '-' && s.get_char(18) == '-' && s.get_char(23)
            == '-' {
            let mut digits = String::new();
            digits.append(s.substring_char(0, 8));
            digits.append(s.substring_char(9, 13));
            digits.append(s.substring_char(14, 18));
            digits.append(s.substring_char(19, 23));
            digits.append(s.substring_char(24, 36));
            proof {
                assert(digits@ =~= s@.subrange(0, 8) + s@.subrange(9, 13) + s@.subrange(14, 18)
                    + s@.subrange(19, 23) + s@.subrange(24, 36));
            }
            parse_hex_32(digits.as_str())
        } else {
            None
        }
    } else {
        None
    }
}

} // verus!
