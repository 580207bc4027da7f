use vstd::prelude::*;
use vstd::string::StringSliceAdditionalSpecFns;

verus! {

pub const KB: u64 = 1024;

pub const MB: u64 = 1048576;

pub const GB: u64 = 1073741824;

/// Size assumed when a size string cannot be read: 8 MiB.
pub const FALLBACK_SIZE: u64 = 8388608;

pub open spec fn is_digit(b: u8) -> bool {
    48 <= b <= 57
}

/// Number of decimal digits at the start of `s`.
pub open spec fn leading_digits(s: Seq<u8>) -> nat
    decreases s.len(),
{
    if s.len() > 0 && is_digit(s[0]) {
        1 + leading_digits(s.drop_first())
    } else {
        0
    }
}

/// The number that a string of decimal digits writes.
pub open spec fn digits_value(d: Seq<u8>) -> nat
    decreases d.len(),
{
    if d.len() == 0 {
        0
    } else {
        digits_value(d.drop_last()) * 10 + (d.last() - 48) as nat
    }
}

/// The multiplier that a size suffix stands for, if it is one.
pub open spec fn suffix_unit(suffix: Seq<u8>) -> Option<u64> {
    if suffix.len() != 1 {
        None
    } else if suffix[0] == 107 || suffix[0] == 75 {
        Some(KB)
    } else if suffix[0] == 109 || suffix[0] == 77 {
        Some(MB)
    } else if suffix[0] == 103 || suffix[0] == 71 {
        Some(GB)
    } else {
        None
    }
}

/// Whether the leading digits of `s` give a count: there is at least one
/// and their value fits in 64 bits.
pub open spec fn has_count(s: Seq<u8>) -> bool {
    leading_digits(s) > 0 && digits_value(s.take(leading_digits(s) as int)) <= u64::MAX
}

/// The count that the leading digits write.
pub open spec fn size_count(s: Seq<u8>) -> nat {
    digits_value(s.take(leading_digits(s) as int))
}

/// The byte count that a size string such as `32M` stands for: leading
/// decimal digits times 1024, 1024² or 1024³ for a suffix `k`/`K`,
/// `m`/`M` or `g`/`G`. Missing digits, digits beyond 64 bits, any other
/// suffix, or a product beyond 64 bits give 8 MiB.
pub open spec fn spec_parse_size(s: Seq<u8>) -> u64 {
    if !has_count(s) {
        FALLBACK_SIZE
    } else {
        match suffix_unit(s.skip(leading_digits(s) as int)) {
        Some(unit) => if size_count(s) * unit <= u64::MAX {
            (size_count(s) * unit) as u64
        } else {
            FALLBACK_SIZE
        },
        None => FALLBACK_SIZE,
    }
    }
}

proof fn lemma_leading_digits(s: Seq<u8>, i: int)
    requires
        0 <= i <= s.len(),
        forall|j: int| 0 <= j < i ==> is_digit(#[trigger] s[j]),
        i == s.len() || !is_digit(s[i]),
    ensures
        leading_digits(s) == i,
    decreases i,
{
    if i > 0 {
        lemma_leading_digits(s.drop_first(), i - 1);
    }
}

/// Reads a size string as `spec_parse_size` describes.
pub fn parse_size_from_str(str_size: &str) -> (r: u64)
    ensures
        r == spec_parse_size(str_size.spec_bytes()),
{
    let bytes = str_size.as_bytes();
    let ghost s = bytes@;
    let len = bytes.len();
    let mut i: usize = 0;
    let mut value: u64 = 0;
    let mut overflow = false;
    while i < len && 48 <= bytes[i] && bytes[i] <= 57
        invariant
            s == str_size.spec_bytes(),
            bytes@ == s,
            len == s.len(),
            0 <= i <= len,
            forall|j: int| 0 <= j < i ==> is_digit(#[trigger] s[j]),
            !overflow ==> value == digits_value(s.take(i as int)),
            overflow ==> digits_value(s.take(i as int)) > u64::MAX,
        decreases len - i,
    {
        let b = bytes[i];
        proof {
            assert(s.take(i + 1).drop_last() == s.take(i as int));
        }
        if !overflow {
            match value.checked_mul(10) {
                Some(t) => match t.checked_add((b - 48) as u64) {
                    Some(v) => {
                        value = v;
                    },
                    None => {
                        overflow = true;
                    },
                },
                None => {
                    overflow = true;
                },
            }
        }
        i = i + 1;
    }
    proof {
        lemma_leading_digits(s, i as int);
    }
    if i == 0 || overflow {
        return FALLBACK_SIZE;
    }
    let count: u64 = value;
    let rest_len = len - i;
    let unit: u64 = if rest_len != 1 {
        0
    } else {
        let c = bytes[i];
        if c == 107 || c == 75 {
            KB
        } else if c == 109 || c == 77 {
            MB
        } else if c == 103 || c == 71 {
            GB
        } else {
            0
        }
    };
    proof {
        let suffix = s.skip(i as int);
        assert(suffix.len() == rest_len);
        if rest_len == 1 {
            assert(suffix[0] == s[i as int]);
        }
        assert(count == size_count(s));
        assert(unit == 0 <==> suffix_unit(suffix) is None);
        assert(unit != 0 ==> suffix_unit(suffix) == Some(unit));
    }
    if unit == 0 {
        return FALLBACK_SIZE;
    }
    match count.checked_mul(unit) {
        Some(p) => p,
        None => FALLBACK_SIZE,
    }
}

} // verus!
