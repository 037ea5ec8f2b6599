//! Decimal integers in text: parsing as `str::parse` does for `u64` and
//! `isize`, and formatting as `Display` does for `u64`.
use vstd::prelude::*;
use crate::text::{append_chars, chars_of, string_of};

verus! {

pub open spec fn is_digit(c: char) -> bool {
    '0' <= c && c <= '9'
}

pub open spec fn all_digits(s: Seq<char>) -> bool {
    forall|i: int| 0 <= i < s.len() ==> is_digit(#[trigger] s[i])
}

pub open spec fn digit_value(c: char) -> int {
    (c as int) - ('0' as int)
}

/// The value of a string of decimal digits.
pub open spec fn digits_value(s: Seq<char>) -> int
    decreases s.len(),
{
    if s.len() == 0 {
        0
    } else {
        digits_value(s.drop_last()) * 10 + digit_value(s.last())
    }
}

/// `str::parse::<u64>`: an optional `+`, then one or more decimal digits
/// whose value fits in 64 bits.
pub open spec fn parse_u64_spec(s: Seq<char>) -> Option<u64> {
    let body = if s.len() > 0 && s[0] == '+' {
        s.drop_first()
    } else {
        s
    };
    if body.len() > 0 && all_digits(body) && digits_value(body) <= u64::MAX {
        Some(digits_value(body) as u64)
    } else {
        None
    }
}

/// `str::parse::<isize>`: an optional sign, then one or more decimal digits
/// whose signed value fits in `isize`.
pub open spec fn parse_isize_spec(s: Seq<char>) -> Option<isize> {
    let neg = s.len() > 0 && s[0] == '-';
    let body = if s.len() > 0 && (s[0] == '+' || s[0] == '-') {
        s.drop_first()
    } else {
        s
    };
    let v = if neg {
        -digits_value(body)
    } else {
        digits_value(body)
    };
    if body.len() > 0 && all_digits(body) && isize::MIN <= v <= isize::MAX {
        Some(v as isize)
    } else {
        None
    }
}

proof fn lemma_digits_value_nonneg(s: Seq<char>)
    requires
        all_digits(s),
    ensures
        digits_value(s) >= 0,
    decreases s.len(),
{
    if s.len() > 0 {
        assert(all_digits(s.drop_last())) by {
            assert forall|i: int| 0 <= i < s.drop_last().len() implies is_digit(
                #[trigger] s.drop_last()[i],
            ) by {
                assert(s.drop_last()[i] == s[i]);
            }
        }
        lemma_digits_value_nonneg(s.drop_last());
        assert(is_digit(s[s.len() - 1]));
    }
}

/// Value of the digits `v[lo..hi]`, or `None` once it exceeds `bound`.
fn digits_upto(v: &Vec<char>, lo: usize, bound: u128) -> (r: Option<u128>)
    requires
        lo <= v.len(),
        bound <= 0x1_0000_0000_0000_0000u128,
    ensures
        r matches Some(x) ==> (all_digits(v@.skip(lo as int)) && x == digits_value(v@.skip(
            lo as int,
        )) && x <= bound),
        r is None ==> (!all_digits(v@.skip(lo as int)) || digits_value(v@.skip(lo as int))
            > bound),
{
    let mut value: u128 = 0;
    let mut i: usize = lo;
    while i < v.len()
        invariant
            lo <= i <= v.len(),
            bound <= 0x1_0000_0000_0000_0000u128,
            all_digits(v@.subrange(lo as int, i as int)),
            value == digits_value(v@.subrange(lo as int, i as int)),
            value <= bound,
        decreases v.len() - i,
    {
        let c = v[i];
        let ghost prefix = v@.subrange(lo as int, i as int);
        let ghost next = v@.subrange(lo as int, i + 1);
        assert(next.drop_last() =~= prefix);
        assert(next.last() == c);
        if !('0' <= c && c <= '9') {
            proof {
                assert(v@.skip(lo as int)[i - lo] == c);
            }
            return None;
        }
        let d: u128 = (c as u32 - '0' as u32) as u128;
        let next_value: u128 = value * 10 + d;
        assert(next_value == digits_value(next));
        assert(all_digits(next)) by {
            assert forall|k: int| 0 <= k < next.len() implies is_digit(#[trigger] next[k]) by {
                if k < prefix.len() {
                    assert(next[k] == prefix[k]);
                }
            }
        }
        if next_value > bound {
            proof {
                lemma_digits_grow(v@.skip(lo as int), (i + 1 - lo) as int);
                assert(v@.skip(lo as int).take((i + 1 - lo) as int) =~= next);
            }
            return None;
        }
        value = next_value;
        i += 1;
    }
    assert(v@.subrange(lo as int, v.len() as int) =~= v@.skip(lo as int));
    Some(value)
}

/// Appending digits never lowers the value of a digit string.
proof fn lemma_digits_grow(s: Seq<char>, k: int)
    requires
        0 <= k <= s.len(),
        all_digits(s.take(k)),
    ensures
        all_digits(s) ==> digits_value(s) >= digits_value(s.take(k)),
    decreases s.len() - k,
{
    if all_digits(s) && k < s.len() {
        let t = s.take(k + 1);
        assert(t.drop_last() =~= s.take(k));
        assert(is_digit(s[k]));
        lemma_digits_value_nonneg(s.take(k));
        assert(all_digits(t)) by {
            assert forall|j: int| 0 <= j < t.len() implies is_digit(#[trigger] t[j]) by {
                assert(t[j] == s[j]);
            }
        }
        lemma_digits_grow(s, k + 1);
    } else if all_digits(s) {
        assert(s.take(k) =~= s);
    }
}

/// Parses an unsigned 64-bit decimal number as `str::parse::<u64>` does.
pub fn parse_u64(text: &str) -> (r: Option<u64>)
    ensures
        r == parse_u64_spec(text@),
{
    let v = chars_of(text);
    let lo: usize = if v.len() > 0 && v[0] == '+' {
        1
    } else {
        0
    };
    assert(v@.skip(lo as int) =~= (if v@.len() > 0 && v@[0] == '+' {
        v@.drop_first()
    } else {
        v@
    }));
    if lo == v.len() {
        return None;
    }
    match digits_upto(&v, lo, 0xFFFF_FFFF_FFFF_FFFFu128) {
        Some(x) => Some(x as u64),
        None => None,
    }
}

/// Parses a signed decimal number as `str::parse::<isize>` does.
pub fn parse_isize(text: &str) -> (r: Option<isize>)
    ensures
        r == parse_isize_spec(text@),
{
    let v = chars_of(text);
    let neg = v.len() > 0 && v[0] == '-';
    let lo: usize = if v.len() > 0 && (v[0] == '+' || v[0] == '-') {
        1
    } else {
        0
    };
    let ghost body = v@.skip(lo as int);
    assert(body =~= (if v@.len() > 0 && (v@[0] == '+' || v@[0] == '-') {
        v@.drop_first()
    } else {
        v@
    }));
    if lo == v.len() {
        return None;
    }
    let max_magnitude: u128 = if neg {
        (isize::MAX as u128) + 1
    } else {
        isize::MAX as u128
    };
    match digits_upto(&v, lo, max_magnitude) {
        Some(x) => {
            if neg {
                if x == (isize::MAX as u128) + 1 {
                    Some(isize::MIN)
                } else {
                    Some(-(x as isize))
                }
            } else {
                Some(x as isize)
            }
        },
        None => None,
    }
}

/// The decimal digits of `n`, as `Display` writes an unsigned integer.
pub open spec fn decimal(n: nat) -> Seq<char>
    decreases n,
{
    if n < 10 {
        seq![digit_char(n)]
    } else {
        decimal(n / 10).push(digit_char(n % 10))
    }
}

pub open spec fn digit_char(d: nat) -> char {
    ((d + 48) as u32) as char
}

fn push_decimal(out: &mut Vec<char>, n: u64)
    ensures
        final(out)@ == old(out)@ + decimal(n as nat),
    decreases n,
{
    if n >= 10 {
        push_decimal(out, n / 10);
    }
    let d: u8 = (n % 10) as u8;
    out.push(((d + 48) as u8) as char);
    proof {
        assert(((d + 48) as u8) as char == digit_char((n % 10) as nat));
        if n >= 10 {
            assert(decimal(n as nat) == decimal((n / 10) as nat).push(digit_char((n % 10) as nat)));
        }
    }
}

/// The decimal text of `n`.
pub fn decimal_chars(n: u64) -> (r: Vec<char>)
    ensures
        r@ == decimal(n as nat),
{
    let mut out: Vec<char> = Vec::new();
    push_decimal(&mut out, n);
    assert(out@ =~= decimal(n as nat));
    out
}

/// Appends the characters of a literal text.
pub fn push_str_chars(out: &mut Vec<char>, s: &str)
    ensures
        final(out)@ == old(out)@ + s@,
{
    let v = chars_of(s);
    append_chars(out, &v);
}

} // verus!
