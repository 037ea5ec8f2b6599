//! Lower-case hexadecimal text for the protected restart payload.
use vstd::prelude::*;

use crate::text::{chars_of, string_of};

verus! {

/// The lower-case digit of a nibble.
pub open spec fn hex_digit(n: u8) -> char {
    if n < 10 { ((n + 48) as u8) as char } else { ((n - 10 + 97) as u8) as char }
}

/// Two lower-case digits per byte, high nibble first.
pub open spec fn hex_text(bytes: Seq<u8>) -> Seq<char>
    decreases bytes.len(),
{
    if bytes.len() == 0 {
        Seq::empty()
    } else {
        hex_text(bytes.drop_last()) + seq![hex_digit(bytes.last() / 16), hex_digit(bytes.last() % 16)]
    }
}

proof fn lemma_hex_text_len(bytes: Seq<u8>)
    ensures
        hex_text(bytes).len() == 2 * bytes.len(),
    decreases bytes.len(),
{
    if bytes.len() > 0 {
        lemma_hex_text_len(bytes.drop_last());
    }
}

fn digit_of(n: u8) -> (r: char)
    requires
        n < 16,
    ensures
        r == hex_digit(n),
{
    if n < 10 {
        ((n + 48) as u8) as char
    } else {
        ((n - 10 + 97) as u8) as char
    }
}

/// Encodes bytes as lower-case hexadecimal; see `hex_text`.
pub fn hex_encode(bytes: &Vec<u8>) -> (r: String)
    ensures
        r@ == hex_text(bytes@),
{
    let mut out: Vec<char> = Vec::new();
    let mut i: usize = 0;
    while i < bytes.len()
        invariant
            i <= bytes.len(),
            out@ == hex_text(bytes@.take(i as int)),
        decreases bytes.len() - i,
    {
        let b = bytes[i];
        out.push(digit_of(b / 16));
        out.push(digit_of(b % 16));
        i += 1;
        assert(bytes@.take(i as int).drop_last() =~= bytes@.take(i - 1));
        assert(out@ =~= hex_text(bytes@.take(i - 1)) + seq![hex_digit(b / 16), hex_digit(b % 16)]);
    }
    assert(bytes@.take(bytes.len() as int) =~= bytes@);
    string_of(&out)
}

/// Why a payload is not valid hexadecimal.
#[derive(Clone, Copy, Debug, PartialEq, Eq, Structural)]
pub enum HexError {
    OddLength,
    NotHexadecimal,
}

impl HexError {
    /// The message shown for this error.
    pub fn message(self) -> (r: &'static str)
        ensures
            r@ == (match self {
                HexError::OddLength => "protected transcription restart payload has odd length"@,
                HexError::NotHexadecimal => "protected transcription restart payload is not hexadecimal"@,
            }),
    {
        match self {
            HexError::OddLength => "protected transcription restart payload has odd length",
            HexError::NotHexadecimal => "protected transcription restart payload is not hexadecimal",
        }
    }
}

/// The UTF-8 length of a character.
pub open spec fn utf8_width(c: char) -> int {
    if (c as u32) < 0x80 {
        1
    } else if (c as u32) < 0x800 {
        2
    } else if (c as u32) < 0x10000 {
        3
    } else {
        4
    }
}

/// The UTF-8 length of a text.
pub open spec fn utf8_len(s: Seq<char>) -> int
    decreases s.len(),
{
    if s.len() == 0 {
        0
    } else {
        utf8_len(s.drop_last()) + utf8_width(s.last())
    }
}

/// ASCII hexadecimal digits, either case.
pub open spec fn is_hex_char(c: char) -> bool {
    ('0' <= c && c <= '9') || ('a' <= c && c <= 'f') || ('A' <= c && c <= 'F')
}

/// The value of a hexadecimal digit.
pub open spec fn nibble(c: char) -> int {
    if '0' <= c && c <= '9' {
        c as int - 48
    } else if 'a' <= c && c <= 'f' {
        c as int - 97 + 10
    } else {
        c as int - 65 + 10
    }
}

/// The bytes of pairs of digits.
pub open spec fn pair_bytes(s: Seq<char>) -> Seq<u8>
    decreases s.len(),
{
    if s.len() < 2 {
        Seq::empty()
    } else {
        pair_bytes(s.drop_last().drop_last()) + seq![(16 * nibble(s[s.len() - 2]) + nibble(s.last())) as u8]
    }
}

/// A payload decoded: an odd UTF-8 length or a character that is not a
/// hexadecimal digit is refused.
pub open spec fn hex_decode_spec(text: Seq<char>) -> Result<Seq<u8>, HexError> {
    if utf8_len(text) % 2 != 0 {
        Err(HexError::OddLength)
    } else if !(forall|i: int| 0 <= i < text.len() ==> is_hex_char(#[trigger] text[i])) {
        Err(HexError::NotHexadecimal)
    } else {
        Ok(pair_bytes(text))
    }
}

/// The value of a hexadecimal digit; none for another character.
pub fn hex_nibble(value: char) -> (r: Option<u8>)
    ensures
        match r {
            Some(n) => is_hex_char(value) && n as int == nibble(value) && n < 16,
            None => !is_hex_char(value),
        },
{
    if '0' <= value && value <= '9' {
        Some(((value as u32) - 48) as u8)
    } else if 'a' <= value && value <= 'f' {
        Some(((value as u32) - 97 + 10) as u8)
    } else if 'A' <= value && value <= 'F' {
        Some(((value as u32) - 65 + 10) as u8)
    } else {
        None
    }
}

proof fn lemma_ascii_len(s: Seq<char>)
    requires
        forall|i: int| 0 <= i < s.len() ==> is_hex_char(#[trigger] s[i]),
    ensures
        utf8_len(s) == s.len(),
    decreases s.len(),
{
    if s.len() > 0 {
        lemma_ascii_len(s.drop_last());
        assert(is_hex_char(s[s.len() - 1]));
    }
}

/// Decodes a hexadecimal payload; see `hex_decode_spec`.
pub fn hex_decode(text: &str) -> (r: Result<Vec<u8>, HexError>)
    ensures
        match r {
            Ok(bytes) => hex_decode_spec(text@) == Ok::<Seq<u8>, HexError>(bytes@),
            Err(e) => hex_decode_spec(text@) == Err::<Seq<u8>, HexError>(e),
        },
{
    let v = chars_of(text);
    let mut odd = false;
    let mut i: usize = 0;
    while i < v.len()
        invariant
            i <= v.len(),
            odd == (utf8_len(v@.take(i as int)) % 2 != 0),
        decreases v.len() - i,
    {
        let code = v[i] as u32;
        let width: u32 = if code < 0x80 {
            1
        } else if code < 0x800 {
            2
        } else if code < 0x10000 {
            3
        } else {
            4
        };
        assert(v@.take(i + 1).drop_last() =~= v@.take(i as int));
        if width % 2 == 1 {
            odd = !odd;
        }
        i += 1;
    }
    assert(v@.take(v.len() as int) =~= v@);
    if odd {
        return Err(HexError::OddLength);
    }
    let mut j: usize = 0;
    while j < v.len()
        invariant
            j <= v.len(),
            v@ == text@,
            utf8_len(v@) % 2 == 0,
            forall|k: int| 0 <= k < j ==> is_hex_char(#[trigger] v@[k]),
        decreases v.len() - j,
    {
        if hex_nibble(v[j]).is_none() {
            assert(!is_hex_char(v@[j as int]));
            return Err(HexError::NotHexadecimal);
        }
        j += 1;
    }
    proof {
        lemma_ascii_len(v@);
    }
    let mut out: Vec<u8> = Vec::new();
    let mut k: usize = 0;
    while k + 1 < v.len()
        invariant
            k % 2 == 0,
            k <= v.len(),
            v.len() % 2 == 0,
            forall|m: int| 0 <= m < v.len() ==> is_hex_char(#[trigger] v@[m]),
            out@ == pair_bytes(v@.take(k as int)),
        decreases v.len() - k,
    {
        let high = match hex_nibble(v[k]) {
            Some(h) => h,
            None => 0,
        };
        let low = match hex_nibble(v[k + 1]) {
            Some(l) => l,
            None => 0,
        };
        out.push(16 * high + low);
        k += 2;
        assert(v@.take(k as int).drop_last().drop_last() =~= v@.take(k - 2));
    }
    assert(v@.take(v.len() as int) =~= v@);
    Ok(out)
}

proof fn lemma_digit_roundtrip(n: u8)
    requires
        n < 16,
    ensures
        is_hex_char(hex_digit(n)),
        nibble(hex_digit(n)) == n,
{
}

proof fn lemma_pair_bytes_append(s: Seq<char>, a: char, b: char)
    requires
        s.len() % 2 == 0,
    ensures
        pair_bytes(s + seq![a, b]) == pair_bytes(s) + seq![(16 * nibble(a) + nibble(b)) as u8],
{
    let t = s + seq![a, b];
    assert(t.drop_last().drop_last() =~= s);
}

/// Decoding an encoding gives the bytes back.
pub proof fn hex_round_trip(bytes: Seq<u8>)
    ensures
        hex_decode_spec(hex_text(bytes)) == Ok::<Seq<u8>, HexError>(bytes),
    decreases bytes.len(),
{
    lemma_hex_text_len(bytes);
    if bytes.len() == 0 {
        assert(hex_text(bytes) =~= Seq::<char>::empty());
        assert(pair_bytes(Seq::<char>::empty()) =~= Seq::<u8>::empty());
        assert(bytes =~= Seq::<u8>::empty());
        assert(utf8_len(hex_text(bytes)) == 0);
    } else {
        let rest = bytes.drop_last();
        let b = bytes.last();
        hex_round_trip(rest);
        lemma_hex_text_len(rest);
        let rt = hex_text(rest);
        assert forall|i: int| 0 <= i < rt.len() implies is_hex_char(#[trigger] rt[i]) by {
            lemma_hex_chars(rest, i);
        }
        lemma_ascii_len(rt);
        assert(pair_bytes(rt) == rest);
        lemma_digit_roundtrip(b / 16);
        lemma_digit_roundtrip(b % 16);
        let t = hex_text(bytes);
        assert(t == hex_text(rest) + seq![hex_digit(b / 16), hex_digit(b % 16)]);
        lemma_pair_bytes_append(hex_text(rest), hex_digit(b / 16), hex_digit(b % 16));
        assert((16 * (b / 16) + b % 16) as u8 == b) by (nonlinear_arith);
        assert(pair_bytes(t) =~= bytes);
        assert forall|i: int| 0 <= i < t.len() implies is_hex_char(#[trigger] t[i]) by {
            if i < hex_text(rest).len() {
                assert(t[i] == hex_text(rest)[i]);
            }
        }
        lemma_ascii_len(t);
        assert(utf8_len(t) % 2 == 0);
    }
}

proof fn lemma_hex_chars(bytes: Seq<u8>, i: int)
    requires
        0 <= i < hex_text(bytes).len(),
    ensures
        is_hex_char(hex_text(bytes)[i]),
    decreases bytes.len(),
{
    lemma_hex_text_len(bytes);
    if bytes.len() > 0 {
        let rest = bytes.drop_last();
        lemma_hex_text_len(rest);
        lemma_digit_roundtrip(bytes.last() / 16);
        lemma_digit_roundtrip(bytes.last() % 16);
        if i < hex_text(rest).len() {
            lemma_hex_chars(rest, i);
        }
    }
}

} // verus!
