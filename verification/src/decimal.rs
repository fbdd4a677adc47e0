//! Decimal digit strings: rendering process ids into region names and
//! reading numeric settings, with out-of-range and malformed input
//! rejected exactly as Rust's own string-to-integer conversions do.

use vstd::prelude::*;
use vstd::string::StringExecFns;

verus! {

/// The single decimal digit `d` as a character sequence.
pub open spec fn spec_digit_seq(d: nat) -> Seq<char> {
    if d == 0 {
        "0"@
    } else if d == 1 {
        "1"@
    } else if d == 2 {
        "2"@
    } else if d == 3 {
        "3"@
    } else if d == 4 {
        "4"@
    } else if d == 5 {
        "5"@
    } else if d == 6 {
        "6"@
    } else if d == 7 {
        "7"@
    } else if d == 8 {
        "8"@
    } else {
        "9"@
    }
}

/// The usual decimal rendering of `n`, most significant digit first
/// and without leading zeroes.
pub open spec fn spec_udecimal(n: nat) -> Seq<char>
    decreases n,
{
    if n < 10 {
        spec_digit_seq(n)
    } else {
        spec_udecimal(n / 10) + spec_digit_seq(n % 10)
    }
}

/// The single decimal digit `d` as a string slice.
pub fn digit_str(d: u64) -> (r: &'static str)
    requires
        d < 10,
    ensures
        r@ == spec_digit_seq(d as nat),
{
    if d == 0 {
        "0"
    } else if d == 1 {
        "1"
    } else if d == 2 {
        "2"
    } else if d == 3 {
        "3"
    } else if d == 4 {
        "4"
    } else if d == 5 {
        "5"
    } else if d == 6 {
        "6"
    } else if d == 7 {
        "7"
    } else if d == 8 {
        "8"
    } else {
        "9"
    }
}

/// Render `n` in decimal.
pub fn u64_to_decimal(n: u64) -> (r: String)
    ensures
        r@ == spec_udecimal(n as nat),
    decreases n,
{
    if n < 10 {
        digit_str(n).to_owned()
    } else {
        let mut s = u64_to_decimal(n / 10);
        s.append(digit_str(n % 10));
        s
    }
}

/// The bytes are ASCII digits, at least one of them.
pub open spec fn spec_all_digits(bytes: Seq<u8>) -> bool {
    bytes.len() > 0 && (forall|i: int| 0 <= i < bytes.len() ==> 48 <= #[trigger] bytes[i] <= 57)
}

/// Numeric value of a digit string, most significant digit first.
pub open spec fn spec_digits_value(bytes: Seq<u8>) -> int
    decreases bytes.len(),
{
    if bytes.len() == 0 {
        0
    } else {
        spec_digits_value(bytes.drop_last()) * 10 + (bytes.last() - 48)
    }
}

/// The value of a digit string never shrinks as digits are appended.
proof fn lemma_digits_value_bounds(bytes: Seq<u8>, i: int)
    requires
        0 <= i <= bytes.len(),
        forall|j: int| 0 <= j < bytes.len() ==> 48 <= #[trigger] bytes[j] <= 57,
    ensures
        0 <= spec_digits_value(bytes.take(i)) <= spec_digits_value(bytes),
    decreases bytes.len(),
{
    if bytes.len() == 0 {
        assert(bytes.take(i) =~= bytes);
    } else if i == bytes.len() {
        assert(bytes.take(i) =~= bytes);
        lemma_digits_value_bounds(bytes.drop_last(), bytes.len() - 1);
    } else {
        let prefix = bytes.drop_last();
        assert(bytes.take(i) =~= prefix.take(i));
        lemma_digits_value_bounds(prefix, i);
        lemma_digits_value_bounds(prefix, prefix.len() as int);
        assert(prefix.take(prefix.len() as int) =~= prefix);
    }
}

/// The sign-free part of Rust's integer parsing: `Some` exactly for a
/// nonempty all-digit string whose value fits in `u64`.
pub open spec fn spec_parse_u64_digits(bytes: Seq<u8>) -> Option<u64> {
    if spec_all_digits(bytes) && spec_digits_value(bytes) <= u64::MAX {
        Some(spec_digits_value(bytes) as u64)
    } else {
        None
    }
}

/// Parse an unsigned decimal digit string.
pub fn parse_u64_digits(bytes: &[u8]) -> (r: Option<u64>)
    ensures
        r == spec_parse_u64_digits(bytes@),
{
    let n = bytes.len();
    if n == 0 {
        return None;
    }
    let mut acc: u64 = 0;
    let mut i: usize = 0;
    while i < n
        invariant
            0 <= i <= n,
            n == bytes@.len(),
            forall|j: int| 0 <= j < i ==> 48 <= #[trigger] bytes@[j] <= 57,
            acc == spec_digits_value(bytes@.take(i as int)),
        decreases n - i,
    {
        let b = bytes[i];
        if b < 48 || b > 57 {
            return None;
        }
        let d = (b - 48) as u64;
        proof {
            assert(bytes@.take(i + 1).drop_last() =~= bytes@.take(i as int));
            assert(bytes@.take(i + 1).last() == bytes@[i as int]);
        }
        let shifted = match acc.checked_mul(10) {
            Some(v) => v,
            None => {
                proof {
                    overflow_means_none(bytes@, i as int);
                }
                return None;
            },
        };
        let next = match shifted.checked_add(d) {
            Some(v) => v,
            None => {
                proof {
                    overflow_means_none(bytes@, i as int);
                }
                return None;
            },
        };
        acc = next;
        i = i + 1;
    }
    proof {
        assert(bytes@.take(n as int) =~= bytes@);
    }
    Some(acc)
}

/// When one more digit pushes the accumulator past `u64::MAX`, the
/// whole string's value is past it too, so parsing yields `None`.
proof fn overflow_means_none(bytes: Seq<u8>, i: int)
    requires
        0 <= i < bytes.len(),
        forall|j: int| 0 <= j <= i ==> 48 <= #[trigger] bytes[j] <= 57,
        spec_digits_value(bytes.take(i + 1)) > u64::MAX,
    ensures
        spec_parse_u64_digits(bytes) is None,
{
    if spec_all_digits(bytes) {
        lemma_digits_value_bounds(bytes, i + 1);
    }
}

/// Rust's `u64` parsing: an optional leading `+`, then digits.
pub open spec fn spec_parse_u64(bytes: Seq<u8>) -> Option<u64> {
    if bytes.len() > 0 && bytes[0] == 43 {
        spec_parse_u64_digits(bytes.drop_first())
    } else {
        spec_parse_u64_digits(bytes)
    }
}

/// Parse a `u64` from the UTF-8 bytes of a setting.
pub fn parse_u64_bytes(bytes: &[u8]) -> (r: Option<u64>)
    ensures
        r == spec_parse_u64(bytes@),
{
    if bytes.len() > 0 && bytes[0] == 43 {
        let rest = vstd::slice::slice_subrange(bytes, 1, bytes.len());
        proof {
            assert(rest@ =~= bytes@.drop_first());
        }
        parse_u64_digits(rest)
    } else {
        parse_u64_digits(bytes)
    }
}

/// Rust's `i64` parsing: an optional sign, then digits, with the value
/// required to fit in `i64`.
pub open spec fn spec_parse_i64(bytes: Seq<u8>) -> Option<i64> {
    if bytes.len() > 0 && bytes[0] == 45 {
        match spec_parse_u64_digits(bytes.drop_first()) {
            Some(v) => if v <= 0x8000_0000_0000_0000u64 {
                Some((-(v as int)) as i64)
            } else {
                None
            },
            None => None,
        }
    } else {
        match spec_parse_u64(bytes) {
            Some(v) => if v <= i64::MAX as u64 {
                Some(v as i64)
            } else {
                None
            },
            None => None,
        }
    }
}

/// Parse an `i64` from the UTF-8 bytes of a setting.
pub fn parse_i64_bytes(bytes: &[u8]) -> (r: Option<i64>)
    ensures
        r == spec_parse_i64(bytes@),
{
    if bytes.len() > 0 && bytes[0] == 45 {
        let rest = vstd::slice::slice_subrange(bytes, 1, bytes.len());
        proof {
            assert(rest@ =~= bytes@.drop_first());
        }
        match parse_u64_digits(rest) {
            Some(v) => {
                if v <= 0x8000_0000_0000_0000u64 {
                    if v == 0x8000_0000_0000_0000u64 {
                        Some(i64::MIN)
                    } else {
                        Some(-(v as i64))
                    }
                } else {
                    None
                }
            },
            None => None,
        }
    } else {
        match parse_u64_bytes(bytes) {
            Some(v) => {
                if v <= i64::MAX as u64 {
                    Some(v as i64)
                } else {
                    None
                }
            },
            None => None,
        }
    }
}

/// The UTF-8 bytes of `true` and of `false`.
pub open spec fn spec_parse_bool(bytes: Seq<u8>) -> Option<bool> {
    if bytes =~= seq![0x74u8, 0x72u8, 0x75u8, 0x65u8] {
        Some(true)
    } else if bytes =~= seq![0x66u8, 0x61u8, 0x6cu8, 0x73u8, 0x65u8] {
        Some(false)
    } else {
        None
    }
}

/// Parse a `bool` from the UTF-8 bytes of a setting: exactly `true`
/// or `false`, as Rust's own parsing accepts.
pub fn parse_bool_bytes(bytes: &[u8]) -> (r: Option<bool>)
    ensures
        r == spec_parse_bool(bytes@),
{
    if bytes.len() == 4 && bytes[0] == 0x74 && bytes[1] == 0x72 && bytes[2] == 0x75 && bytes[3]
        == 0x65 {
        proof {
            assert(bytes@ =~= seq![0x74u8, 0x72u8, 0x75u8, 0x65u8]);
        }
        Some(true)
    } else if bytes.len() == 5 && bytes[0] == 0x66 && bytes[1] == 0x61 && bytes[2] == 0x6c
        && bytes[3] == 0x73 && bytes[4] == 0x65 {
        proof {
            assert(bytes@ =~= seq![0x66u8, 0x61u8, 0x6cu8, 0x73u8, 0x65u8]);
        }
        Some(false)
    } else {
        None
    }
}

} // verus!
