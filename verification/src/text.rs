//! Character-level text primitives shared by the transcript, typing and
//! settings logic: whitespace and alphanumeric classes, trimming, splitting
//! into words, joining, and the comparison key of a word.
use vstd::prelude::*;

verus! {

// ---------------------------------------------------------------------------
// Character classes
// ---------------------------------------------------------------------------

/// Unicode `White_Space`, which `char::is_whitespace` decides: the ASCII
/// members, next line, no-break space, ogham space mark, the spaces
/// U+2000 to U+200A, the line and paragraph separators, narrow no-break
/// space, medium mathematical space and ideographic space.
#[verifier::opaque]
pub open spec fn char_is_whitespace(c: char) -> bool {
    ||| ascii_whitespace(c)
    ||| c == '\u{85}'
    ||| c == '\u{a0}'
    ||| c == '\u{1680}'
    ||| ('\u{2000}' <= c && c <= '\u{200a}')
    ||| c == '\u{2028}'
    ||| c == '\u{2029}'
    ||| c == '\u{202f}'
    ||| c == '\u{205f}'
    ||| c == '\u{3000}'
}

/// Unicode alphabetic-or-numeric, as `char::is_alphanumeric` decides it.
pub uninterp spec fn char_is_alphanumeric(c: char) -> bool;

/// The ASCII members of Unicode `White_Space`: space and `\t` through `\r`.
pub open spec fn ascii_whitespace(c: char) -> bool {
    c == ' ' || ('\t' <= c && c <= '\r')
}

/// ASCII letters and digits.
pub open spec fn ascii_alphanumeric(c: char) -> bool {
    ('a' <= c && c <= 'z') || ('A' <= c && c <= 'Z') || ('0' <= c && c <= '9')
}

/// Whether `c` is whitespace, as `char::is_whitespace` answers.
pub(crate) fn is_whitespace(c: char) -> (r: bool)
    ensures
        r == char_is_whitespace(c),
        (c as u32) < 128 ==> (r == ascii_whitespace(c)),
{
    proof {
        reveal(char_is_whitespace);
    }
    c == ' ' || ('\t' <= c && c <= '\r') || c == '\u{85}' || c == '\u{a0}' || c == '\u{1680}'
        || ('\u{2000}' <= c && c <= '\u{200a}') || c == '\u{2028}' || c == '\u{2029}' || c == '\u{202f}'
        || c == '\u{205f}' || c == '\u{3000}'
}

/// Calls `char::is_alphanumeric`. Its result is named `char_is_alphanumeric`;
/// for ASCII input std's source decides it by the explicit ranges `a..=z`,
/// `A..=Z` and `0..=9`, which the second clause states. Non-ASCII input is
/// looked up in Unicode tables, which are left unstated.
#[verifier::external_body]
pub(crate) fn is_alphanumeric(c: char) -> (r: bool)
    ensures
        r == char_is_alphanumeric(c),
        (c as u32) < 128 ==> (r == ascii_alphanumeric(c)),
{
    c.is_alphanumeric()
}

/// `char::to_ascii_lowercase`: upper-case ASCII letters map to lower case,
/// every other character is unchanged.
pub open spec fn ascii_lower(c: char) -> char {
    if 'A' <= c && c <= 'Z' {
        ((c as u32) + 32) as char
    } else {
        c
    }
}

pub open spec fn lower_seq(s: Seq<char>) -> Seq<char> {
    s.map_values(|c: char| ascii_lower(c))
}

pub fn to_ascii_lower_char(c: char) -> (r: char)
    ensures
        r == ascii_lower(c),
{
    if 'A' <= c && c <= 'Z' {
        let code: u8 = c as u8;
        assert(code as u32 == c as u32);
        ((code + 32) as u8) as char
    } else {
        c
    }
}

pub fn to_ascii_lowercase(v: &Vec<char>) -> (r: Vec<char>)
    ensures
        r@ == lower_seq(v@),
{
    let mut r: Vec<char> = Vec::new();
    let mut i: usize = 0;
    while i < v.len()
        invariant
            i <= v.len(),
            r@ == lower_seq(v@.take(i as int)),
        decreases v.len() - i,
    {
        r.push(to_ascii_lower_char(v[i]));
        i += 1;
        assert(lower_seq(v@.take(i as int)) =~= lower_seq(v@.take((i - 1) as int)).push(
            ascii_lower(v@[i - 1]),
        ));
    }
    assert(v@.take(v.len() as int) =~= v@);
    r
}

// ---------------------------------------------------------------------------
// Conversions between strings and character vectors
// ---------------------------------------------------------------------------

/// Copies the characters of a string slice into a vector.
pub fn chars_of(s: &str) -> (r: Vec<char>)
    ensures
        r@ == s@,
{
    let mut r: Vec<char> = Vec::new();
    for c in it: s.chars()
        invariant
            r@ == it.seq().take(it.index() as int),
    {
        r.push(c);
    }
    r
}

/// Calls `String::push`, which appends one character.
#[verifier::external_body]
pub(crate) fn push_char(s: &mut String, c: char)
    ensures
        final(s)@ == old(s)@.push(c),
{
    s.push(c);
}

/// Builds a string from a vector of characters.
pub fn string_of(v: &Vec<char>) -> (s: String)
    ensures
        s@ == v@,
{
    let mut s = String::new();
    let mut i: usize = 0;
    while i < v.len()
        invariant
            i <= v.len(),
            s@ == v@.take(i as int),
        decreases v.len() - i,
    {
        push_char(&mut s, v[i]);
        i += 1;
        assert(v@.take(i as int) =~= v@.take((i - 1) as int).push(v@[i - 1]));
    }
    assert(v@.take(v.len() as int) =~= v@);
    s
}

/// Builds a string from a slice `v[lo..hi]` of a vector of characters.
pub fn string_of_range(v: &Vec<char>, lo: usize, hi: usize) -> (s: String)
    requires
        lo <= hi <= v.len(),
    ensures
        s@ == v@.subrange(lo as int, hi as int),
{
    let mut s = String::new();
    let mut i: usize = lo;
    while i < hi
        invariant
            lo <= i <= hi <= v.len(),
            s@ == v@.subrange(lo as int, i as int),
        decreases hi - i,
    {
        push_char(&mut s, v[i]);
        i += 1;
        assert(v@.subrange(lo as int, i as int) =~= v@.subrange(lo as int, (i - 1) as int).push(
            v@[i - 1],
        ));
    }
    s
}

/// Copies `v[lo..hi]`.
pub fn sub_vec(v: &Vec<char>, lo: usize, hi: usize) -> (r: Vec<char>)
    requires
        lo <= hi <= v.len(),
    ensures
        r@ == v@.subrange(lo as int, hi as int),
{
    let mut r: Vec<char> = Vec::new();
    let mut i: usize = lo;
    while i < hi
        invariant
            lo <= i <= hi <= v.len(),
            r@ == v@.subrange(lo as int, i as int),
        decreases hi - i,
    {
        r.push(v[i]);
        i += 1;
        assert(v@.subrange(lo as int, i as int) =~= v@.subrange(lo as int, (i - 1) as int).push(
            v@[i - 1],
        ));
    }
    r
}

/// Copies a character vector.
pub fn copy_chars(v: &Vec<char>) -> (r: Vec<char>)
    ensures
        r@ == v@,
{
    let r = sub_vec(v, 0, v.len());
    assert(v@.subrange(0, v.len() as int) =~= v@);
    r
}

/// Appends all characters of `src` to `dst`.
pub fn append_chars(dst: &mut Vec<char>, src: &Vec<char>)
    ensures
        final(dst)@ == old(dst)@ + src@,
{
    let ghost start = dst@;
    let mut i: usize = 0;
    while i < src.len()
        invariant
            i <= src.len(),
            dst@ == start + src@.take(i as int),
        decreases src.len() - i,
    {
        dst.push(src[i]);
        i += 1;
        assert(start + src@.take(i as int) =~= (start + src@.take((i - 1) as int)).push(
            src@[i - 1],
        ));
    }
    assert(src@.take(src.len() as int) =~= src@);
}

/// Character-wise equality of two vectors.
pub fn chars_equal(a: &Vec<char>, b: &Vec<char>) -> (r: bool)
    ensures
        r == (a@ == b@),
{
    if a.len() != b.len() {
        return false;
    }
    let mut i: usize = 0;
    while i < a.len()
        invariant
            a.len() == b.len(),
            i <= a.len(),
            forall|j: int| 0 <= j < i ==> a@[j] == b@[j],
        decreases a.len() - i,
    {
        if a[i] != b[i] {
            return false;
        }
        i += 1;
    }
    assert(a@ =~= b@);
    true
}

/// The character sequences of a vector of character vectors.
pub open spec fn seqs(ws: Seq<Vec<char>>) -> Seq<Seq<char>> {
    ws.map_values(|w: Vec<char>| w@)
}

/// Whether a literal text equals the characters of `v`.
pub fn chars_equal_str(v: &Vec<char>, s: &str) -> (r: bool)
    ensures
        r == (v@ == s@),
{
    let w = chars_of(s);
    chars_equal(v, &w)
}

// ---------------------------------------------------------------------------
// Trimming
// ---------------------------------------------------------------------------

/// Drops leading characters of class `p`.
pub open spec fn trim_start_by(s: Seq<char>, p: spec_fn(char) -> bool) -> Seq<char>
    decreases s.len(),
{
    if s.len() > 0 && p(s[0]) {
        trim_start_by(s.drop_first(), p)
    } else {
        s
    }
}

/// Drops trailing characters of class `p`.
pub open spec fn trim_end_by(s: Seq<char>, p: spec_fn(char) -> bool) -> Seq<char>
    decreases s.len(),
{
    if s.len() > 0 && p(s.last()) {
        trim_end_by(s.drop_last(), p)
    } else {
        s
    }
}

pub open spec fn ws_class() -> spec_fn(char) -> bool {
    |c: char| char_is_whitespace(c)
}

pub open spec fn non_alnum_class() -> spec_fn(char) -> bool {
    |c: char| !char_is_alphanumeric(c)
}

/// `str::trim_start`.
pub open spec fn trim_start(s: Seq<char>) -> Seq<char> {
    trim_start_by(s, ws_class())
}

/// `str::trim_end`.
pub open spec fn trim_end(s: Seq<char>) -> Seq<char> {
    trim_end_by(s, ws_class())
}

/// `str::trim`: leading and trailing whitespace removed.
pub open spec fn trim(s: Seq<char>) -> Seq<char> {
    trim_end(trim_start(s))
}

/// An ASCII character is whitespace exactly when it is one of the ASCII
/// whitespace characters.
pub proof fn ascii_whitespace_agrees(c: char)
    requires
        (c as u32) < 128,
    ensures
        char_is_whitespace(c) == ascii_whitespace(c),
{
    reveal(char_is_whitespace);
}

/// A text that neither starts nor ends with whitespace is its own trim.
pub proof fn trim_of_unpadded(s: Seq<char>)
    requires
        s.len() > 0 ==> !char_is_whitespace(s[0]) && !char_is_whitespace(s.last()),
    ensures
        trim(s) == s,
{
    assert(trim_start(s) == s);
    assert(trim_end(s) == s);
}

/// Lower-casing leaves no upper-case ASCII letter.
pub proof fn lowered_has_no_upper(s: Seq<char>)
    ensures
        forall|i: int| 0 <= i < s.len() ==> !('A' <= #[trigger] lower_seq(s)[i] && lower_seq(s)[i] <= 'Z'),
{
    assert forall|i: int| 0 <= i < s.len() implies !('A' <= #[trigger] lower_seq(s)[i] && lower_seq(s)[i] <= 'Z') by {
        let c = s[i];
        if 'A' <= c && c <= 'Z' {
            assert((c as u32) + 32 <= 'z' as u32);
            assert(ascii_lower(c) as u32 == (c as u32) + 32);
        }
    }
}

/// A text without upper-case ASCII letters is its own lower-casing.
pub proof fn lower_of_lowercase(s: Seq<char>)
    requires
        forall|i: int| 0 <= i < s.len() ==> !('A' <= #[trigger] s[i] && s[i] <= 'Z'),
    ensures
        lower_seq(s) == s,
{
    assert(lower_seq(s) =~= s);
}

proof fn lemma_trim_start_skip(s: Seq<char>, p: spec_fn(char) -> bool, i: int)
    requires
        0 <= i <= s.len(),
        forall|j: int| 0 <= j < i ==> p(#[trigger] s[j]),
    ensures
        trim_start_by(s, p) == trim_start_by(s.subrange(i, s.len() as int), p),
    decreases i,
{
    if i > 0 {
        assert(p(s[0]));
        let t = s.drop_first();
        lemma_trim_start_skip(t, p, i - 1);
        assert(t.subrange(i - 1, t.len() as int) =~= s.subrange(i, s.len() as int));
    } else {
        assert(s.subrange(0, s.len() as int) =~= s);
    }
}

proof fn lemma_trim_end_skip(s: Seq<char>, p: spec_fn(char) -> bool, i: int)
    requires
        0 <= i <= s.len(),
        forall|j: int| i <= j < s.len() ==> p(#[trigger] s[j]),
    ensures
        trim_end_by(s, p) == trim_end_by(s.subrange(0, i), p),
    decreases s.len() - i,
{
    if i < s.len() {
        assert(p(s.last()));
        let t = s.drop_last();
        lemma_trim_end_skip(t, p, i);
        assert(t.subrange(0, i) =~= s.subrange(0, i));
    } else {
        assert(s.subrange(0, i) =~= s);
    }
}

proof fn lemma_trim_start_shape(s: Seq<char>, p: spec_fn(char) -> bool)
    ensures
        trim_start_by(s, p).len() == 0 || !p(trim_start_by(s, p)[0]),
    decreases s.len(),
{
    if s.len() > 0 && p(s[0]) {
        lemma_trim_start_shape(s.drop_first(), p);
    }
}

proof fn lemma_trim_end_shape(s: Seq<char>, p: spec_fn(char) -> bool)
    ensures
        trim_end_by(s, p).len() <= s.len(),
        trim_end_by(s, p) == s.take(trim_end_by(s, p).len() as int),
        trim_end_by(s, p).len() == 0 || !p(trim_end_by(s, p).last()),
    decreases s.len(),
{
    if s.len() > 0 && p(s.last()) {
        lemma_trim_end_shape(s.drop_last(), p);
        let r = trim_end_by(s.drop_last(), p);
        assert(s.drop_last().take(r.len() as int) =~= s.take(r.len() as int));
    } else {
        assert(s.take(s.len() as int) =~= s);
    }
}

/// Trimming a trimmed text changes nothing.
pub proof fn trim_idempotent(s: Seq<char>)
    ensures
        trim(trim(s)) == trim(s),
{
    let a = trim_start(s);
    lemma_trim_start_shape(s, ws_class());
    lemma_trim_end_shape(a, ws_class());
    let b = trim_end(a);
    if b.len() > 0 {
        assert(b[0] == a[0]);
        assert(trim_start_by(b, ws_class()) == b);
        assert(trim_end_by(b, ws_class()) == b);
    } else {
        assert(trim_start_by(b, ws_class()) == b);
    }
}

/// Index range `[lo, hi)` of `trim_start_by(v, p)`-then-`trim_end_by` for the
/// whitespace class.
pub fn trim_range(v: &Vec<char>) -> (r: (usize, usize))
    ensures
        r.0 <= r.1 <= v.len(),
        v@.subrange(r.0 as int, r.1 as int) == trim(v@),
{
    let mut lo: usize = 0;
    while lo < v.len() && is_whitespace(v[lo])
        invariant
            lo <= v.len(),
            forall|j: int| 0 <= j < lo ==> char_is_whitespace(#[trigger] v@[j]),
        decreases v.len() - lo,
    {
        lo += 1;
    }
    proof {
        lemma_trim_start_skip(v@, ws_class(), lo as int);
    }
    let ghost t = v@.subrange(lo as int, v.len() as int);
    assert(trim_start(v@) == t);
    let mut hi: usize = v.len();
    while hi > lo && is_whitespace(v[hi - 1])
        invariant
            lo <= hi <= v.len(),
            t == v@.subrange(lo as int, v.len() as int),
            forall|j: int| hi <= j < v.len() ==> char_is_whitespace(#[trigger] v@[j]),
        decreases hi,
    {
        hi -= 1;
    }
    proof {
        let k = (hi - lo) as int;
        assert forall|j: int| k <= j < t.len() implies ws_class()(#[trigger] t[j]) by {
            assert(t[j] == v@[j + lo]);
        }
        lemma_trim_end_skip(t, ws_class(), k);
        assert(t.subrange(0, k) =~= v@.subrange(lo as int, hi as int));
    }
    (lo, hi)
}

/// `str::trim_start` on a character vector.
pub fn trim_start_vec(v: &Vec<char>) -> (r: Vec<char>)
    ensures
        r@ == trim_start(v@),
{
    let mut lo: usize = 0;
    while lo < v.len() && is_whitespace(v[lo])
        invariant
            lo <= v.len(),
            forall|j: int| 0 <= j < lo ==> char_is_whitespace(#[trigger] v@[j]),
        decreases v.len() - lo,
    {
        lo += 1;
    }
    proof {
        lemma_trim_start_skip(v@, ws_class(), lo as int);
    }
    sub_vec(v, lo, v.len())
}

/// `str::trim_end` on a character vector.
pub fn trim_end_vec(v: &Vec<char>) -> (r: Vec<char>)
    ensures
        r@ == trim_end(v@),
{
    let mut hi: usize = v.len();
    while hi > 0 && is_whitespace(v[hi - 1])
        invariant
            hi <= v.len(),
            forall|j: int| hi <= j < v.len() ==> char_is_whitespace(#[trigger] v@[j]),
        decreases hi,
    {
        hi -= 1;
    }
    proof {
        lemma_trim_end_skip(v@, ws_class(), hi as int);
    }
    sub_vec(v, 0, hi)
}

/// `str::trim` on a character vector.
pub fn trim_vec(v: &Vec<char>) -> (r: Vec<char>)
    ensures
        r@ == trim(v@),
{
    let (lo, hi) = trim_range(v);
    sub_vec(v, lo, hi)
}

/// `str::trim` on a string.
pub fn trim_string(s: &str) -> (r: String)
    ensures
        r@ == trim(s@),
{
    let v = chars_of(s);
    let (lo, hi) = trim_range(&v);
    string_of_range(&v, lo, hi)
}

/// Whether the trimmed text is empty, i.e. every character is whitespace.
pub fn is_blank(v: &Vec<char>) -> (r: bool)
    ensures
        r == (trim(v@).len() == 0),
{
    let (lo, hi) = trim_range(v);
    lo == hi
}

/// Whether `str::trim` of a string leaves nothing.
pub fn str_is_blank(s: &str) -> (r: bool)
    ensures
        r == (trim(s@).len() == 0),
{
    let v = chars_of(s);
    is_blank(&v)
}

// ---------------------------------------------------------------------------
// Words
// ---------------------------------------------------------------------------

/// State of `str::split_whitespace` after reading the first `n` characters of
/// `s`: the finished words, and the word being read.
pub open spec fn split_scan(s: Seq<char>, n: nat) -> (Seq<Seq<char>>, Seq<char>)
    decreases n,
{
    if n == 0 {
        (Seq::empty(), Seq::empty())
    } else {
        let prev = split_scan(s, (n - 1) as nat);
        let c = s[n - 1];
        if char_is_whitespace(c) {
            if prev.1.len() > 0 {
                (prev.0.push(prev.1), Seq::empty())
            } else {
                prev
            }
        } else {
            (prev.0, prev.1.push(c))
        }
    }
}

/// `str::split_whitespace`: the maximal runs of non-whitespace characters.
pub open spec fn words_of(s: Seq<char>) -> Seq<Seq<char>> {
    let st = split_scan(s, s.len());
    if st.1.len() > 0 {
        st.0.push(st.1)
    } else {
        st.0
    }
}

proof fn lemma_scan_prefix(s: Seq<char>, m: int, k: nat)
    requires
        0 <= k <= m <= s.len(),
    ensures
        split_scan(s, k) == split_scan(s.take(m), k),
    decreases k,
{
    if k > 0 {
        lemma_scan_prefix(s, m, (k - 1) as nat);
        assert(s.take(m)[k - 1] == s[k - 1]);
    }
}

proof fn lemma_scan_drop_first(s: Seq<char>, n: nat)
    requires
        s.len() > 0,
        char_is_whitespace(s[0]),
        n + 1 <= s.len(),
    ensures
        split_scan(s, n + 1) == split_scan(s.drop_first(), n),
    decreases n,
{
    if n > 0 {
        lemma_scan_drop_first(s, (n - 1) as nat);
        assert(s.drop_first()[n - 1] == s[n as int]);
    } else {
        assert(split_scan(s, 0) == (Seq::<Seq<char>>::empty(), Seq::<char>::empty()));
    }
}

/// Leading and trailing whitespace do not change the words of a text.
pub proof fn words_of_trim(s: Seq<char>)
    ensures
        words_of(trim(s)) == words_of(s),
{
    lemma_words_trim_start(s);
    lemma_words_trim_end(trim_start(s));
}

proof fn lemma_words_trim_start(s: Seq<char>)
    ensures
        words_of(trim_start_by(s, ws_class())) == words_of(s),
    decreases s.len(),
{
    if s.len() > 0 && char_is_whitespace(s[0]) {
        lemma_scan_drop_first(s, (s.len() - 1) as nat);
        lemma_words_trim_start(s.drop_first());
    }
}

proof fn lemma_words_trim_end(s: Seq<char>)
    ensures
        words_of(trim_end_by(s, ws_class())) == words_of(s),
    decreases s.len(),
{
    if s.len() > 0 && char_is_whitespace(s.last()) {
        let d = s.drop_last();
        lemma_scan_prefix(s, d.len() as int, d.len());
        assert(s.take(d.len() as int) =~= d);
        lemma_words_trim_end(d);
    }
}

/// A word as `split_whitespace` gives it: not empty, without whitespace.
pub open spec fn plain_word(w: Seq<char>) -> bool {
    w.len() > 0 && forall|j: int| 0 <= j < w.len() ==> !char_is_whitespace(#[trigger] w[j])
}

proof fn lemma_scan_plain(s: Seq<char>, n: nat)
    requires
        n <= s.len(),
    ensures
        forall|i: int| 0 <= i < split_scan(s, n).0.len() ==> plain_word(#[trigger] split_scan(s, n).0[i]),
        forall|j: int| 0 <= j < split_scan(s, n).1.len() ==> !char_is_whitespace(#[trigger] split_scan(s, n).1[j]),
    decreases n,
{
    if n > 0 {
        lemma_scan_plain(s, (n - 1) as nat);
        let prev = split_scan(s, (n - 1) as nat);
        let c = s[n - 1];
        if !char_is_whitespace(c) {
            assert forall|j: int| 0 <= j < prev.1.push(c).len() implies !char_is_whitespace(#[trigger] prev.1.push(c)[j]) by {
                if j < prev.1.len() {
                    assert(prev.1.push(c)[j] == prev.1[j]);
                }
            }
        } else if prev.1.len() > 0 {
            assert forall|i: int| 0 <= i < prev.0.push(prev.1).len() implies plain_word(#[trigger] prev.0.push(prev.1)[i]) by {
                if i < prev.0.len() {
                    assert(prev.0.push(prev.1)[i] == prev.0[i]);
                }
            }
        }
    }
}

/// The words of a text are plain words.
pub proof fn words_are_plain(s: Seq<char>)
    ensures
        forall|i: int| 0 <= i < words_of(s).len() ==> plain_word(#[trigger] words_of(s)[i]),
{
    lemma_scan_plain(s, s.len());
    let st = split_scan(s, s.len());
    if st.1.len() > 0 {
        assert forall|i: int| 0 <= i < st.0.push(st.1).len() implies plain_word(#[trigger] st.0.push(st.1)[i]) by {
            if i < st.0.len() {
                assert(st.0.push(st.1)[i] == st.0[i]);
            }
        }
    }
}

proof fn lemma_scan_extend(s: Seq<char>, x: Seq<char>, m: nat)
    requires
        m <= x.len(),
        forall|j: int| 0 <= j < x.len() ==> !char_is_whitespace(#[trigger] x[j]),
    ensures
        split_scan(s + x, (s.len() + m) as nat) == (split_scan(s, s.len()).0, split_scan(s, s.len()).1 + x.take(m as int)),
    decreases m,
{
    if m == 0 {
        lemma_scan_prefix(s + x, s.len() as int, s.len());
        assert((s + x).take(s.len() as int) =~= s);
        assert(split_scan(s, s.len()).1 + x.take(0) =~= split_scan(s, s.len()).1);
    } else {
        lemma_scan_extend(s, x, (m - 1) as nat);
        assert((s + x)[s.len() + m - 1] == x[m - 1]);
        assert(split_scan(s, s.len()).1 + x.take(m as int) =~= (split_scan(s, s.len()).1 + x.take(m - 1)).push(x[m - 1]));
    }
}

proof fn lemma_scan_concat(p: Seq<char>, c: Seq<char>, m: nat)
    requires
        m <= c.len(),
        split_scan(p, p.len()).1.len() == 0,
    ensures
        split_scan(p + c, (p.len() + m) as nat) == (split_scan(p, p.len()).0 + split_scan(c, m).0, split_scan(c, m).1),
    decreases m,
{
    if m == 0 {
        lemma_scan_prefix(p + c, p.len() as int, p.len());
        assert((p + c).take(p.len() as int) =~= p);
        assert(split_scan(p, p.len()).0 + Seq::<Seq<char>>::empty() =~= split_scan(p, p.len()).0);
        assert(split_scan(p, p.len()).1 =~= Seq::<char>::empty());
    } else {
        lemma_scan_concat(p, c, (m - 1) as nat);
        assert((p + c)[p.len() + m - 1] == c[m - 1]);
        let w = split_scan(p, p.len()).0;
        let prev = split_scan(c, (m - 1) as nat);
        assert((w + prev.0).push(prev.1) =~= w + prev.0.push(prev.1));
    }
}

/// The words of two texts with a space between are the words of the first
/// followed by those of the second.
pub proof fn words_of_spaced(a: Seq<char>, b: Seq<char>)
    ensures
        words_of(a + seq![' '] + b) == words_of(a) + words_of(b),
{
    let p = a + seq![' '];
    ascii_whitespace_agrees(' ');
    lemma_scan_prefix(p, a.len() as int, a.len());
    assert(p.take(a.len() as int) =~= a);
    assert(p[a.len() as int] == ' ');
    lemma_scan_concat(p, b, b.len());
    assert(split_scan(p, p.len()).0 == words_of(a));
    let sb = split_scan(b, b.len());
    if sb.1.len() > 0 {
        assert((words_of(a) + sb.0).push(sb.1) =~= words_of(a) + sb.0.push(sb.1));
    }
}

/// Joining plain words with single spaces and splitting the result at
/// whitespace gives the words back.
pub proof fn words_of_joined(ws: Seq<Seq<char>>)
    requires
        forall|i: int| 0 <= i < ws.len() ==> plain_word(#[trigger] ws[i]),
    ensures
        words_of(join_words(ws)) == ws,
    decreases ws.len(),
{
    if ws.len() == 0 {
        assert(words_of(Seq::<char>::empty()) =~= Seq::<Seq<char>>::empty());
    } else if ws.len() == 1 {
        let w = ws[0];
        assert(plain_word(w));
        let e: Seq<char> = Seq::empty();
        lemma_scan_extend(e, w, w.len());
        assert(e + w =~= w);
        assert(w.take(w.len() as int) =~= w);
        assert(e + w =~= w);
        assert(words_of(w) =~= seq![w]);
        assert(ws =~= seq![w]);
    } else {
        let front = ws.drop_last();
        let w = ws.last();
        assert(plain_word(w));
        assert forall|i: int| 0 <= i < front.len() implies plain_word(#[trigger] front[i]) by {
            assert(front[i] == ws[i]);
        }
        words_of_joined(front);
        let j = join_words(front);
        let p = j + seq![' '];
        ascii_whitespace_agrees(' ');
        lemma_scan_prefix(p, j.len() as int, j.len());
        assert(p.take(j.len() as int) =~= j);
        assert(p[j.len() as int] == ' ');
        let sp = split_scan(p, p.len());
        assert(sp.0 == front);
        assert(sp.1.len() == 0);
        lemma_scan_extend(p, w, w.len());
        assert(w.take(w.len() as int) =~= w);
        assert(sp.1 + w =~= w);
        assert(join_words(ws) == p + w);
        assert(words_of(p + w) == front.push(w));
        assert(front.push(w) =~= ws);
    }
}

/// Splits a character vector into its whitespace-separated words.
pub fn split_words(v: &Vec<char>) -> (r: Vec<Vec<char>>)
    ensures
        seqs(r@) == words_of(v@),
{
    let mut words: Vec<Vec<char>> = Vec::new();
    let mut cur: Vec<char> = Vec::new();
    let mut i: usize = 0;
    while i < v.len()
        invariant
            i <= v.len(),
            (seqs(words@), cur@) == split_scan(v@, i as nat),
        decreases v.len() - i,
    {
        let c = v[i];
        if is_whitespace(c) {
            if cur.len() > 0 {
                let ghost old_words = seqs(words@);
                let finished = cur;
                cur = Vec::new();
                words.push(finished);
                assert(seqs(words@) =~= old_words.push(finished@));
            }
        } else {
            cur.push(c);
        }
        i += 1;
    }
    if cur.len() > 0 {
        let ghost old_words = seqs(words@);
        let ghost last = cur@;
        words.push(cur);
        assert(seqs(words@) =~= old_words.push(last));
    }
    words
}

/// The words of a string.
pub fn split_str_words(s: &str) -> (r: Vec<Vec<char>>)
    ensures
        seqs(r@) == words_of(s@),
{
    let v = chars_of(s);
    split_words(&v)
}

/// Words joined with single spaces (`[&str]::join(" ")`).
pub open spec fn join_words(ws: Seq<Seq<char>>) -> Seq<char>
    decreases ws.len(),
{
    if ws.len() == 0 {
        Seq::empty()
    } else if ws.len() == 1 {
        ws[0]
    } else {
        join_words(ws.drop_last()) + seq![' '] + ws.last()
    }
}

/// Joins words with single spaces.
pub fn join_word_vec(ws: &Vec<Vec<char>>) -> (r: Vec<char>)
    ensures
        r@ == join_words(seqs(ws@)),
{
    let mut r: Vec<char> = Vec::new();
    let mut i: usize = 0;
    while i < ws.len()
        invariant
            i <= ws.len(),
            r@ == join_words(seqs(ws@).take(i as int)),
        decreases ws.len() - i,
    {
        let ghost before = seqs(ws@).take(i as int);
        if i > 0 {
            r.push(' ');
        }
        append_chars(&mut r, &ws[i]);
        i += 1;
        proof {
            let now = seqs(ws@).take(i as int);
            assert(now.drop_last() =~= before);
            assert(now.last() == seqs(ws@)[i - 1]);
            if i == 1 {
                assert(r@ =~= now[0]);
            } else {
                assert(r@ =~= join_words(before) + seq![' '] + now.last());
            }
        }
    }
    assert(seqs(ws@).take(ws.len() as int) =~= seqs(ws@));
    r
}

/// The comparison key of a word: surrounding non-alphanumeric characters
/// removed, ASCII letters lower-cased.
pub open spec fn token_key(w: Seq<char>) -> Seq<char> {
    lower_seq(trim_end_by(trim_start_by(w, non_alnum_class()), non_alnum_class()))
}

/// The comparison keys of a sequence of words.
pub open spec fn token_keys(ws: Seq<Seq<char>>) -> Seq<Seq<char>> {
    ws.map_values(|w: Seq<char>| token_key(w))
}

/// Computes the comparison key of a word.
pub fn compare_token(w: &Vec<char>) -> (r: Vec<char>)
    ensures
        r@ == token_key(w@),
{
    let mut lo: usize = 0;
    while lo < w.len() && !is_alphanumeric(w[lo])
        invariant
            lo <= w.len(),
            forall|j: int| 0 <= j < lo ==> !char_is_alphanumeric(#[trigger] w@[j]),
        decreases w.len() - lo,
    {
        lo += 1;
    }
    proof {
        lemma_trim_start_skip(w@, non_alnum_class(), lo as int);
    }
    let ghost t = w@.subrange(lo as int, w.len() as int);
    let mut hi: usize = w.len();
    while hi > lo && !is_alphanumeric(w[hi - 1])
        invariant
            lo <= hi <= w.len(),
            t == w@.subrange(lo as int, w.len() as int),
            forall|j: int| hi <= j < w.len() ==> !char_is_alphanumeric(#[trigger] w@[j]),
        decreases hi,
    {
        hi -= 1;
    }
    proof {
        let k = (hi - lo) as int;
        assert forall|j: int| k <= j < t.len() implies non_alnum_class()(#[trigger] t[j]) by {
            assert(t[j] == w@[j + lo]);
        }
        lemma_trim_end_skip(t, non_alnum_class(), k);
        assert(t.subrange(0, k) =~= w@.subrange(lo as int, hi as int));
    }
    let core = sub_vec(w, lo, hi);
    to_ascii_lowercase(&core)
}

/// Computes the comparison keys of all words.
pub fn compare_tokens(ws: &Vec<Vec<char>>) -> (r: Vec<Vec<char>>)
    ensures
        seqs(r@) == token_keys(seqs(ws@)),
{
    let mut r: Vec<Vec<char>> = Vec::new();
    let mut i: usize = 0;
    while i < ws.len()
        invariant
            i <= ws.len(),
            seqs(r@) == token_keys(seqs(ws@).take(i as int)),
        decreases ws.len() - i,
    {
        let k = compare_token(&ws[i]);
        let ghost before = seqs(r@);
        let ghost kv = k@;
        r.push(k);
        i += 1;
        assert(seqs(r@) =~= before.push(kv));
        assert(token_keys(seqs(ws@).take(i as int)) =~= token_keys(
            seqs(ws@).take((i - 1) as int),
        ).push(token_key(seqs(ws@)[i - 1])));
    }
    assert(seqs(ws@).take(ws.len() as int) =~= seqs(ws@));
    r
}

/// Number of characters of `s` in the class of `char::is_alphanumeric`.
pub open spec fn alnum_count(s: Seq<char>) -> nat
    decreases s.len(),
{
    if s.len() == 0 {
        0
    } else {
        alnum_count(s.drop_last()) + if char_is_alphanumeric(s.last()) {
            1nat
        } else {
            0nat
        }
    }
}

/// Counts the alphanumeric characters.
pub fn count_alphanumeric(v: &Vec<char>) -> (r: usize)
    ensures
        r == alnum_count(v@),
{
    let mut n: usize = 0;
    let mut i: usize = 0;
    while i < v.len()
        invariant
            i <= v.len(),
            n == alnum_count(v@.take(i as int)),
            n <= i,
        decreases v.len() - i,
    {
        if is_alphanumeric(v[i]) {
            n += 1;
        }
        i += 1;
        assert(v@.take(i as int).drop_last() =~= v@.take((i - 1) as int));
    }
    assert(v@.take(v.len() as int) =~= v@);
    n
}

/// Whether `c` occurs in `v`.
pub fn contains_char(v: &Vec<char>, c: char) -> (r: bool)
    ensures
        r == v@.contains(c),
{
    let mut i: usize = 0;
    while i < v.len()
        invariant
            i <= v.len(),
            forall|j: int| 0 <= j < i ==> v@[j] != c,
        decreases v.len() - i,
    {
        if v[i] == c {
            return true;
        }
        i += 1;
    }
    false
}

/// Whether `p` is a prefix of `s`.
pub open spec fn is_prefix(p: Seq<char>, s: Seq<char>) -> bool {
    p.len() <= s.len() && s.subrange(0, p.len() as int) == p
}

/// Whether `p` is a prefix of `v`.
pub fn starts_with(v: &Vec<char>, p: &Vec<char>) -> (r: bool)
    ensures
        r == is_prefix(p@, v@),
{
    if p.len() > v.len() {
        return false;
    }
    let mut i: usize = 0;
    while i < p.len()
        invariant
            p.len() <= v.len(),
            i <= p.len(),
            forall|j: int| 0 <= j < i ==> v@[j] == p@[j],
        decreases p.len() - i,
    {
        if v[i] != p[i] {
            assert(v@.subrange(0, p.len() as int)[i as int] != p@[i as int]);
            return false;
        }
        i += 1;
    }
    assert(v@.subrange(0, p.len() as int) =~= p@);
    true
}

/// Whether `p` is a suffix of `s`.
pub open spec fn is_suffix(p: Seq<char>, s: Seq<char>) -> bool {
    p.len() <= s.len() && s.subrange(s.len() - p.len(), s.len() as int) == p
}

/// Whether `p` is a suffix of `v`.
pub fn ends_with(v: &Vec<char>, p: &Vec<char>) -> (r: bool)
    ensures
        r == is_suffix(p@, v@),
{
    if p.len() > v.len() {
        return false;
    }
    let off = v.len() - p.len();
    let mut i: usize = 0;
    while i < p.len()
        invariant
            p.len() <= v.len(),
            off == v.len() - p.len(),
            i <= p.len(),
            forall|j: int| 0 <= j < i ==> v@[off + j] == p@[j],
        decreases p.len() - i,
    {
        if v[off + i] != p[i] {
            assert(v@.subrange(off as int, v.len() as int)[i as int] != p@[i as int]);
            return false;
        }
        i += 1;
    }
    assert(v@.subrange(off as int, v.len() as int) =~= p@);
    true
}

/// Whether `p` occurs as a contiguous part of `s`.
pub open spec fn contains_sub(s: Seq<char>, p: Seq<char>) -> bool {
    exists|i: int| 0 <= i <= s.len() - p.len() && #[trigger] s.subrange(i, i + p.len()) == p
}

/// Whether `p` occurs as a contiguous part of `v`.
pub fn contains_chars(v: &Vec<char>, p: &Vec<char>) -> (r: bool)
    ensures
        r == contains_sub(v@, p@),
{
    if p.len() > v.len() {
        return false;
    }
    let mut i: usize = 0;
    while i <= v.len() - p.len()
        invariant
            p.len() <= v.len(),
            i <= v.len() - p.len() + 1,
            forall|k: int| 0 <= k < i ==> #[trigger] v@.subrange(k, k + p.len()) != p@,
        decreases v.len() - p.len() + 1 - i,
    {
        let mut j: usize = 0;
        let mut same = true;
        while j < p.len()
            invariant
                p.len() <= v.len(),
                i <= v.len() - p.len(),
                j <= p.len(),
                same == forall|m: int| 0 <= m < j ==> v@[i + m] == p@[m],
            decreases p.len() - j,
        {
            if v[i + j] != p[j] {
                same = false;
            }
            j += 1;
        }
        if same {
            assert(v@.subrange(i as int, i + p.len()) =~= p@);
            return true;
        }
        assert(v@.subrange(i as int, i + p.len()) != p@) by {
            let m = choose|m: int| 0 <= m < p.len() && v@[i + m] != p@[m];
            assert(v@.subrange(i as int, i + p.len())[m] == v@[i + m]);
        }
        i += 1;
    }
    false
}

} // verus!
