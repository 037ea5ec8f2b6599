//! What is new in a transcript since an earlier snapshot, how informative a
//! change is, and how refined phrases are appended to a typing draft.
use vstd::prelude::*;
use crate::text::{
    alnum_count, append_chars, char_is_alphanumeric, char_is_whitespace, chars_equal, chars_of,
    compare_token, contains_char, copy_chars, count_alphanumeric, is_alphanumeric, is_blank,
    is_prefix, is_whitespace, join_word_vec, join_words, seqs, split_words, starts_with,
    string_of, sub_vec, token_key, trim, trim_end, trim_end_vec, trim_range, trim_start, trim_start_vec, trim_vec, words_of,
};
use crate::transcript::{compact_restarted, compact_restarted_prefix, min_int};
use crate::words::{
    common_prefix_len, lemma_common_prefix_bounds, lemma_common_prefix_unique,
    lemma_overlap_search_range, overlap_search, shared_prefix_char_count,
};

verus! {

/// The last `max` characters of `s` (all of it when it is not longer).
pub open spec fn recent(s: Seq<char>, max: int) -> Seq<char> {
    if s.len() <= max {
        s
    } else {
        s.skip(s.len() - max)
    }
}

/// Keeps the last `max_chars` characters.
pub fn recent_chars_vec(v: &Vec<char>, max_chars: usize) -> (r: Vec<char>)
    ensures
        r@ == recent(v@, max_chars as int),
{
    if v.len() <= max_chars {
        copy_chars(v)
    } else {
        let r = sub_vec(v, v.len() - max_chars, v.len());
        r
    }
}

/// Keeps the last `max_chars` characters of a text.
pub fn recent_chars(text: &str, max_chars: usize) -> (r: String)
    ensures
        r@ == recent(text@, max_chars as int),
{
    let v = chars_of(text);
    let r = recent_chars_vec(&v, max_chars);
    string_of(&r)
}

/// Whitespace runs collapsed to single spaces, cut to `max` characters with
/// `...` appended when longer.
pub open spec fn compact_error_spec(text: Seq<char>, max: int) -> Seq<char> {
    let compact = join_words(words_of(text));
    if compact.len() <= max {
        compact
    } else {
        compact.take(max) + seq!['.', '.', '.']
    }
}

/// Collapses whitespace in a message and bounds its length.
pub fn compact_error(text: &str, max_chars: usize) -> (r: String)
    ensures
        r@ == compact_error_spec(text@, max_chars as int),
{
    let words = crate::text::split_str_words(text);
    let compact = join_word_vec(&words);
    if compact.len() <= max_chars {
        string_of(&compact)
    } else {
        let mut out = sub_vec(&compact, 0, max_chars);
        out.push('.');
        out.push('.');
        out.push('.');
        assert(out@ =~= compact@.take(max_chars as int) + seq!['.', '.', '.']);
        string_of(&out)
    }
}

/// The prompt that conditions the next recognition pass: the last 500
/// characters of the trimmed text.
pub open spec fn prompt_of(text: Seq<char>) -> Seq<char> {
    recent(trim(text), 500)
}

/// Replaces the recognition prompt by the tail of `text`.
pub fn set_prompt(prompt: &mut String, text: &str)
    ensures
        final(prompt)@ == prompt_of(text@),
{
    let v = chars_of(text);
    let t = trim_vec(&v);
    let r = recent_chars_vec(&t, 500);
    *prompt = string_of(&r);
}

/// Number of words that hold at least one alphanumeric character.
pub open spec fn alnum_word_count(ws: Seq<Seq<char>>) -> nat
    decreases ws.len(),
{
    if ws.len() == 0 {
        0
    } else {
        alnum_word_count(ws.drop_last()) + if alnum_count(ws.last()) > 0 {
            1nat
        } else {
            0nat
        }
    }
}

/// A change is informative when it asks something, or has at least eight
/// alphanumeric characters in at least two words.
pub open spec fn informative(text: Seq<char>) -> bool {
    text.contains('?') || (alnum_count(text) >= 8 && alnum_word_count(words_of(text)) >= 2)
}

/// A change that asks something is informative, however short it is.
pub proof fn question_is_informative(text: Seq<char>)
    requires
        text.contains('?'),
    ensures
        informative(text),
{
}

proof fn lemma_alnum_count_le(s: Seq<char>)
    ensures
        alnum_count(s) <= s.len(),
    decreases s.len(),
{
    if s.len() > 0 {
        lemma_alnum_count_le(s.drop_last());
    }
}

proof fn lemma_alnum_word_count_le(ws: Seq<Seq<char>>)
    ensures
        alnum_word_count(ws) <= ws.len(),
    decreases ws.len(),
{
    if ws.len() > 0 {
        lemma_alnum_word_count_le(ws.drop_last());
    }
}

/// A change that asks nothing is not informative when it is shorter than
/// eight characters or is a single word.
pub proof fn short_statement_is_not_informative(text: Seq<char>)
    requires
        !text.contains('?'),
        text.len() < 8 || words_of(text).len() < 2,
    ensures
        !informative(text),
{
    lemma_alnum_count_le(text);
    lemma_alnum_word_count_le(words_of(text));
}

/// Whether a transcript change is worth an insight update.
pub fn is_informative_text(text: &str) -> (r: bool)
    ensures
        r == informative(text@),
{
    let v = chars_of(text);
    let alnum = count_alphanumeric(&v);
    let words = split_words(&v);
    let mut count: usize = 0;
    let mut i: usize = 0;
    while i < words.len()
        invariant
            i <= words.len(),
            count == alnum_word_count(seqs(words@).take(i as int)),
            count <= i,
        decreases words.len() - i,
    {
        if count_alphanumeric(&words[i]) > 0 {
            count += 1;
        }
        i += 1;
        assert(seqs(words@).take(i as int).drop_last() =~= seqs(words@).take(i - 1));
    }
    assert(seqs(words@).take(words.len() as int) =~= seqs(words@));
    contains_char(&v, '?') || (alnum >= 8 && count >= 2)
}

/// A completed dictation phrase is typed only when it has at least two
/// alphanumeric characters.
pub fn should_submit_typing(text: &str) -> (r: bool)
    ensures
        r == (alnum_count(text@) >= 2),
{
    let v = chars_of(text);
    count_alphanumeric(&v) >= 2
}

// ---------------------------------------------------------------------------
// Comparable word spans
// ---------------------------------------------------------------------------

/// A word of a text with a non-empty comparison key, and its character range.
pub struct WordSpan {
    pub key: Vec<char>,
    pub start: usize,
    pub end: usize,
}

pub open spec fn span_view(w: WordSpan) -> (Seq<char>, int, int) {
    (w.key@, w.start as int, w.end as int)
}

pub open spec fn spans_view(ws: Seq<WordSpan>) -> Seq<(Seq<char>, int, int)> {
    ws.map_values(|w: WordSpan| span_view(w))
}

/// Appends the span `s[a..b]` when its comparison key is not empty.
pub open spec fn push_span(sp: Seq<(Seq<char>, int, int)>, s: Seq<char>, a: int, b: int) -> Seq<
    (Seq<char>, int, int),
> {
    let k = token_key(s.subrange(a, b));
    if k.len() > 0 {
        sp.push((k, a, b))
    } else {
        sp
    }
}

/// Spans finished after reading `n` characters of `s`, and the start of the
/// word being read.
pub open spec fn span_scan(s: Seq<char>, n: nat) -> (Seq<(Seq<char>, int, int)>, Option<int>)
    decreases n,
{
    if n == 0 {
        (Seq::empty(), None)
    } else {
        let prev = span_scan(s, (n - 1) as nat);
        let i = n - 1;
        if char_is_whitespace(s[i]) {
            match prev.1 {
                Some(st) => (push_span(prev.0, s, st, i), None),
                None => prev,
            }
        } else {
            match prev.1 {
                None => (prev.0, Some(i)),
                Some(st) => prev,
            }
        }
    }
}

/// The whitespace-separated words of `s` whose comparison key is not empty,
/// each with its key and its character range.
pub open spec fn comparable_spans(s: Seq<char>) -> Seq<(Seq<char>, int, int)> {
    let st = span_scan(s, s.len());
    match st.1 {
        Some(a) => push_span(st.0, s, a, s.len() as int),
        None => st.0,
    }
}

/// The keys of spans.
pub open spec fn span_keys(sp: Seq<(Seq<char>, int, int)>) -> Seq<Seq<char>> {
    sp.map_values(|x: (Seq<char>, int, int)| x.0)
}

proof fn lemma_span_scan_bounds(s: Seq<char>, n: nat)
    requires
        n <= s.len(),
    ensures
        forall|j: int|
            0 <= j < span_scan(s, n).0.len() ==> 0 <= #[trigger] span_scan(s, n).0[j].1
                <= span_scan(s, n).0[j].2 <= n,
        span_scan(s, n).1 matches Some(a) ==> 0 <= a < n,
    decreases n,
{
    if n > 0 {
        lemma_span_scan_bounds(s, (n - 1) as nat);
    }
}

pub proof fn lemma_spans_bounds(s: Seq<char>)
    ensures
        forall|j: int|
            0 <= j < comparable_spans(s).len() ==> 0 <= #[trigger] comparable_spans(s)[j].1
                <= comparable_spans(s)[j].2 <= s.len(),
{
    lemma_span_scan_bounds(s, s.len());
}

fn push_word_span(text: &Vec<char>, start: usize, end: usize, words: &mut Vec<WordSpan>)
    requires
        start <= end <= text.len(),
    ensures
        spans_view(final(words)@) == push_span(spans_view(old(words)@), text@, start as int, end as int),
{
    let w = sub_vec(text, start, end);
    let key = compare_token(&w);
    if key.len() > 0 {
        let ghost before = spans_view(words@);
        let ghost kv = key@;
        words.push(WordSpan { key, start, end });
        assert(spans_view(words@) =~= before.push((kv, start as int, end as int)));
    }
}

/// The words of a text with non-empty comparison keys and their positions.
pub fn comparable_word_spans(text: &Vec<char>) -> (r: Vec<WordSpan>)
    ensures
        spans_view(r@) == comparable_spans(text@),
{
    let mut words: Vec<WordSpan> = Vec::new();
    let mut start: Option<usize> = None;
    let mut i: usize = 0;
    while i < text.len()
        invariant
            i <= text.len(),
            (spans_view(words@), match start { Some(a) => Some(a as int), None => None }) == span_scan(text@, i as nat),
            start matches Some(a) ==> a < i,
        decreases text.len() - i,
    {
        if is_whitespace(text[i]) {
            if let Some(word_start) = start {
                push_word_span(text, word_start, i, &mut words);
                start = None;
            }
        } else if start.is_none() {
            start = Some(i);
        }
        i += 1;
    }
    if let Some(word_start) = start {
        push_word_span(text, word_start, text.len(), &mut words);
    }
    words
}

/// Whether two span lists have the same keys.
fn span_keys_equal(a: &Vec<WordSpan>, b: &Vec<WordSpan>) -> (r: bool)
    ensures
        r == (span_keys(spans_view(a@)) == span_keys(spans_view(b@))),
{
    if a.len() != b.len() {
        assert(span_keys(spans_view(a@)).len() != span_keys(spans_view(b@)).len());
        return false;
    }
    let mut i: usize = 0;
    while i < a.len()
        invariant
            a.len() == b.len(),
            i <= a.len(),
            forall|j: int| 0 <= j < i ==> span_keys(spans_view(a@))[j] == span_keys(spans_view(b@))[j],
        decreases a.len() - i,
    {
        if !chars_equal(&a[i].key, &b[i].key) {
            assert(span_keys(spans_view(a@))[i as int] != span_keys(spans_view(b@))[i as int]);
            return false;
        }
        i += 1;
    }
    assert(span_keys(spans_view(a@)) =~= span_keys(spans_view(b@)));
    true
}

/// Length of the common key prefix of two span lists.
fn shared_span_prefix(a: &Vec<WordSpan>, b: &Vec<WordSpan>) -> (r: usize)
    ensures
        r == common_prefix_len(span_keys(spans_view(a@)), span_keys(spans_view(b@))),
{
    let ghost ka = span_keys(spans_view(a@));
    let ghost kb = span_keys(spans_view(b@));
    let mut i: usize = 0;
    while i < a.len() && i < b.len() && chars_equal(&a[i].key, &b[i].key)
        invariant
            i <= a.len(),
            i <= b.len(),
            ka == span_keys(spans_view(a@)),
            kb == span_keys(spans_view(b@)),
            forall|j: int| 0 <= j < i ==> ka[j] == kb[j],
        decreases a.len() - i,
    {
        i += 1;
    }
    proof {
        lemma_common_prefix_unique(ka, kb, i as int);
    }
    i
}

/// Whether the last `o` keys of `a` equal the first `o` keys of `b`.
fn span_suffix_prefix_eq(a: &Vec<WordSpan>, b: &Vec<WordSpan>, o: usize) -> (r: bool)
    requires
        o <= a.len(),
        o <= b.len(),
    ensures
        r == (span_keys(spans_view(a@)).subrange(a.len() - o, a.len() as int) == span_keys(
            spans_view(b@),
        ).subrange(0, o as int)),
{
    let ghost ka = span_keys(spans_view(a@)).subrange(a.len() - o, a.len() as int);
    let ghost kb = span_keys(spans_view(b@)).subrange(0, o as int);
    let off = a.len() - o;
    let mut k: usize = 0;
    while k < o
        invariant
            o <= a.len(),
            o <= b.len(),
            off == a.len() - o,
            k <= o,
            ka == span_keys(spans_view(a@)).subrange(a.len() - o, a.len() as int),
            kb == span_keys(spans_view(b@)).subrange(0, o as int),
            forall|m: int| 0 <= m < k ==> ka[m] == kb[m],
        decreases o - k,
    {
        if !chars_equal(&a[off + k].key, &b[k].key) {
            assert(ka[k as int] != kb[k as int]);
            return false;
        }
        k += 1;
    }
    assert(ka =~= kb);
    true
}

/// The text after the change of `previous` into `current`, bounded to the
/// last `max` characters.
///
/// Without a non-blank previous text, all of `current` is new. A blank or an
/// unchanged current text has nothing new. A textual extension yields the
/// added text. Otherwise words are compared by key: equal keys mean nothing
/// new; a shared key prefix means the text from the first differing word
/// on; an overlap of at least two words of the end of `previous` with the
/// start of `current` means the text after the overlap. Failing all of
/// these, the text after the common character prefix is new (all of
/// `current` when that rest is blank).
pub open spec fn new_text(previous: Option<Seq<char>>, current: Seq<char>, max: int) -> Seq<char> {
    let cur = trim(current);
    let prev = match previous {
        Some(p) => trim(p),
        None => Seq::empty(),
    };
    if prev.len() == 0 {
        recent(cur, max)
    } else if cur.len() == 0 {
        Seq::empty()
    } else if cur == prev {
        Seq::empty()
    } else if is_prefix(prev, cur) {
        recent(trim(cur.skip(prev.len() as int)), max)
    } else {
        match word_delta(prev, cur, max) {
            Some(d) => d,
            None => {
                let sc = common_prefix_len(prev, cur) as int;
                let tail = cur.skip(sc);
                if trim(tail).len() == 0 {
                    recent(cur, max)
                } else {
                    recent(trim(tail), max)
                }
            },
        }
    }
}

/// The text of `cur` from the word at span index `k` on, if there is one.
pub open spec fn from_span(cur: Seq<char>, spans: Seq<(Seq<char>, int, int)>, k: int, max: int) -> Seq<char> {
    if k < spans.len() {
        recent(trim(cur.skip(spans[k].1)), max)
    } else {
        Seq::empty()
    }
}

/// The word-level answer of `new_text`, when the words decide it.
pub open spec fn word_delta(prev: Seq<char>, cur: Seq<char>, max: int) -> Option<Seq<char>> {
    let pw = comparable_spans(prev);
    let cw = comparable_spans(cur);
    if pw.len() == 0 || cw.len() == 0 {
        None
    } else {
        let pk = span_keys(pw);
        let ck = span_keys(cw);
        if pk == ck {
            Some(Seq::empty())
        } else {
            let shared = common_prefix_len(pk, ck) as int;
            if shared > 0 {
                Some(from_span(cur, cw, shared, max))
            } else {
                let o = overlap_search(pk, ck, 2, min_int(pk.len() as int, ck.len() as int));
                if o > 0 {
                    Some(from_span(cur, cw, o, max))
                } else {
                    None
                }
            }
        }
    }
}

/// When the new transcript does not start as the previous one did (by
/// text and by first word), and the previous one's last `k` words (at least
/// two, compared by key, and no longer overlap exists) are the new one's
/// first `k` words, what is new starts after those words: the text of the
/// new transcript from its word after the overlap, trimmed and bounded to
/// `max` characters, and nothing when the overlap is all of it.
pub proof fn new_text_skips_the_overlap(previous: Seq<char>, current: Seq<char>, max: int, k: int)
    requires
        ({
            let prev = trim(previous);
            let cur = trim(current);
            let pk = span_keys(comparable_spans(prev));
            let ck = span_keys(comparable_spans(cur));
            &&& !is_prefix(prev, cur)
            &&& 2 <= k <= pk.len()
            &&& k <= ck.len()
            &&& pk[0] != ck[0]
            &&& pk.subrange(pk.len() - k, pk.len() as int) == ck.subrange(0, k)
            &&& forall|j: int| k < j <= pk.len() && j <= ck.len() ==> pk.subrange(pk.len() - j, pk.len() as int)
                != #[trigger] ck.subrange(0, j)
        }),
    ensures
        ({
            let cur = trim(current);
            let cw = comparable_spans(cur);
            new_text(Some(previous), current, max) == (if k < cw.len() {
                recent(trim(cur.skip(cw[k].1)), max)
            } else {
                Seq::<char>::empty()
            })
        }),
{
    let prev = trim(previous);
    let cur = trim(current);
    let pw = comparable_spans(prev);
    let cw = comparable_spans(cur);
    let pk = span_keys(pw);
    let ck = span_keys(cw);
    let empty: Seq<char> = Seq::empty();
    assert(span_scan(empty, 0) == (Seq::<(Seq<char>, int, int)>::empty(), Option::<int>::None));
    assert(comparable_spans(empty) =~= Seq::<(Seq<char>, int, int)>::empty());
    if prev.len() == 0 {
        assert(prev =~= empty);
    }
    if cur.len() == 0 {
        assert(cur =~= empty);
    }
    assert(pk.len() == pw.len());
    assert(ck.len() == cw.len());
    assert(pk != ck) by {
        assert(pk[0] != ck[0]);
    }
    assert(cur != prev);
    assert(common_prefix_len(pk, ck) == 0);
    crate::words::overlap_search_finds_longest(pk, ck, 2, min_int(pk.len() as int, ck.len() as int), k);
}

/// When the new transcript starts with the previous one's first `s` words
/// (by key) and then differs, and it does not start with the previous
/// text itself, what is new is the text from its word `s` on, trimmed and
/// bounded to `max` characters.
pub proof fn new_text_skips_the_shared_start(previous: Seq<char>, current: Seq<char>, max: int)
    requires
        ({
            let prev = trim(previous);
            let cur = trim(current);
            let pk = span_keys(comparable_spans(prev));
            let ck = span_keys(comparable_spans(cur));
            &&& !is_prefix(prev, cur)
            &&& pk != ck
            &&& common_prefix_len(pk, ck) > 0
        }),
    ensures
        ({
            let prev = trim(previous);
            let cur = trim(current);
            let cw = comparable_spans(cur);
            let s = common_prefix_len(span_keys(comparable_spans(prev)), span_keys(cw)) as int;
            new_text(Some(previous), current, max) == (if s < cw.len() {
                recent(trim(cur.skip(cw[s].1)), max)
            } else {
                Seq::<char>::empty()
            })
        }),
{
    let prev = trim(previous);
    let cur = trim(current);
    let pw = comparable_spans(prev);
    let cw = comparable_spans(cur);
    let pk = span_keys(pw);
    let ck = span_keys(cw);
    let empty: Seq<char> = Seq::empty();
    assert(span_scan(empty, 0) == (Seq::<(Seq<char>, int, int)>::empty(), Option::<int>::None));
    assert(comparable_spans(empty) =~= Seq::<(Seq<char>, int, int)>::empty());
    assert(pk.len() == pw.len());
    assert(ck.len() == cw.len());
    assert(pk.len() > 0 && ck.len() > 0);
    if prev.len() == 0 {
        assert(prev =~= empty);
    }
    if cur.len() == 0 {
        assert(cur =~= empty);
    }
    assert(cur != prev);
}

/// A transcript that has not changed has nothing new.
pub proof fn unchanged_text_has_nothing_new(previous: Seq<char>, current: Seq<char>, max: int)
    requires
        trim(previous) == trim(current),
        max >= 0,
    ensures
        new_text(Some(previous), current, max).len() == 0,
{
}

fn from_span_exec(cur: &Vec<char>, spans: &Vec<WordSpan>, k: usize, max_chars: usize) -> (r: Vec<char>)
    requires
        forall|j: int| 0 <= j < spans.len() ==> 0 <= #[trigger] spans_view(spans@)[j].1 <= cur.len(),
    ensures
        r@ == from_span(cur@, spans_view(spans@), k as int, max_chars as int),
{
    if k < spans.len() {
        assert(spans_view(spans@)[k as int].1 == spans@[k as int].start);
        let tail = sub_vec(cur, spans[k].start, cur.len());
        assert(tail@ =~= cur@.skip(spans@[k as int].start as int));
        let t = trim_vec(&tail);
        recent_chars_vec(&t, max_chars)
    } else {
        Vec::new()
    }
}

/// Computes the text that is new in `current` since `previous`; see
/// `new_text`.
#[verifier::loop_isolation(false)]
pub fn new_text_since_chars(previous: Option<&Vec<char>>, current: &Vec<char>, max_chars: usize) -> (r: Vec<char>)
    ensures
        r@ == new_text(match previous { Some(p) => Some(p@), None => None }, current@, max_chars as int),
{
    let cur = trim_vec(current);
    let prev = match previous {
        Some(p) => trim_vec(p),
        None => Vec::new(),
    };
    if prev.len() == 0 {
        return recent_chars_vec(&cur, max_chars);
    }
    if cur.len() == 0 {
        return Vec::new();
    }
    if chars_equal(&cur, &prev) {
        return Vec::new();
    }
    if starts_with(&cur, &prev) {
        let rest = sub_vec(&cur, prev.len(), cur.len());
        assert(rest@ =~= cur@.skip(prev.len() as int));
        let t = trim_vec(&rest);
        return recent_chars_vec(&t, max_chars);
    }
    let pw = comparable_word_spans(&prev);
    let cw = comparable_word_spans(&cur);
    proof {
        lemma_spans_bounds(cur@);
    }
    if pw.len() > 0 && cw.len() > 0 {
        if span_keys_equal(&pw, &cw) {
            return Vec::new();
        }
        let shared = shared_span_prefix(&pw, &cw);
        if shared > 0 {
            return from_span_exec(&cur, &cw, shared, max_chars);
        }
        let max_overlap = if pw.len() < cw.len() {
            pw.len()
        } else {
            cw.len()
        };
        let mut o: usize = max_overlap;
        while o >= 2
            invariant
                o <= max_overlap,
                max_overlap == min_int(pw.len() as int, cw.len() as int),
                overlap_search(span_keys(spans_view(pw@)), span_keys(spans_view(cw@)), 2, max_overlap as int)
                    == overlap_search(span_keys(spans_view(pw@)), span_keys(spans_view(cw@)), 2, o as int),
                forall|j: int| 0 <= j < cw.len() ==> 0 <= #[trigger] spans_view(cw@)[j].1 <= cur.len(),
            decreases o,
        {
            assert(span_keys(spans_view(pw@)).len() == pw.len());
            assert(span_keys(spans_view(cw@)).len() == cw.len());
            if span_suffix_prefix_eq(&pw, &cw, o) {
                proof {
                    let pk = span_keys(spans_view(pw@));
                    let ck = span_keys(spans_view(cw@));
                    assert(overlap_search(pk, ck, 2, o as int) == o as int);
                    assert(comparable_spans(prev@) == spans_view(pw@));
                    assert(comparable_spans(cur@) == spans_view(cw@));
                    assert(pk != ck);
                    assert(common_prefix_len(pk, ck) == 0);
                    assert(word_delta(prev@, cur@, max_chars as int) == Some(
                        from_span(cur@, spans_view(cw@), o as int, max_chars as int),
                    ));
                }
                return from_span_exec(&cur, &cw, o, max_chars);
            }
            o -= 1;
        }
    }
    let shared_chars = shared_prefix_char_count(&prev, &cur);
    proof {
        lemma_common_prefix_bounds(prev@, cur@);
    }
    let tail = sub_vec(&cur, shared_chars, cur.len());
    assert(tail@ =~= cur@.skip(shared_chars as int));
    if is_blank(&tail) {
        recent_chars_vec(&cur, max_chars)
    } else {
        let t = trim_vec(&tail);
        recent_chars_vec(&t, max_chars)
    }
}

/// The text that is new in `current` since `previous`, bounded to the last
/// `max_chars` characters; see `new_text`.
pub fn new_text_since(previous: Option<&str>, current: &str, max_chars: usize) -> (r: String)
    ensures
        r@ == new_text(match previous { Some(p) => Some(p@), None => None }, current@, max_chars as int),
{
    let cur = chars_of(current);
    let r = match previous {
        Some(p) => {
            let pv = chars_of(p);
            new_text_since_chars(Some(&pv), &cur, max_chars)
        },
        None => new_text_since_chars(None, &cur, max_chars),
    };
    string_of(&r)
}

} // verus!

verus! {

// ---------------------------------------------------------------------------
// Typing draft
// ---------------------------------------------------------------------------

/// Number of equal keys of `a` from `i` and of `b` from `j`, counted from `k`.
pub open spec fn match_run(a: Seq<Seq<char>>, b: Seq<Seq<char>>, i: int, j: int, k: int) -> int
    decreases a.len() - i - k,
{
    if 0 <= i && 0 <= j && i + k < a.len() && j + k < b.len() && a[i + k] == b[j + k] {
        match_run(a, b, i, j, k + 1)
    } else {
        k
    }
}

/// A place where a new phrase (keys `tk`) revises the end of a draft (keys
/// `dk`): it starts in one of the first three words of the phrase, agrees
/// with the draft for at least four words, and reaches at least the
/// second-to-last draft word.
pub open spec fn tail_candidate(dk: Seq<Seq<char>>, tk: Seq<Seq<char>>, ds: int, ts: int) -> bool {
    &&& 0 <= ds < dk.len()
    &&& 0 <= ts < tk.len()
    &&& ts < 3
    &&& match_run(dk, tk, ds, ts, 0) >= 4
    &&& ds + match_run(dk, tk, ds, ts, 0) >= dk.len() - 1
}

/// The chosen revision place: the longest agreement, then the latest draft
/// position, then the earliest phrase position.
pub open spec fn is_best_tail(dk: Seq<Seq<char>>, tk: Seq<Seq<char>>, ds: int, ts: int) -> bool {
    &&& tail_candidate(dk, tk, ds, ts)
    &&& forall|d2: int, t2: int|
        #![trigger match_run(dk, tk, d2, t2, 0)]
        tail_candidate(dk, tk, d2, t2) ==> (match_run(dk, tk, d2, t2, 0) < match_run(
            dk,
            tk,
            ds,
            ts,
            0,
        ) || (match_run(dk, tk, d2, t2, 0) == match_run(dk, tk, ds, ts, 0) && (d2 < ds || (d2
            == ds && t2 >= ts))))
}

pub open spec fn best_tail(dk: Seq<Seq<char>>, tk: Seq<Seq<char>>) -> Option<(int, int)> {
    if exists|p: (int, int)| is_best_tail(dk, tk, p.0, p.1) {
        Some(choose|p: (int, int)| is_best_tail(dk, tk, p.0, p.1))
    } else {
        None
    }
}

proof fn lemma_best_tail_unique(dk: Seq<Seq<char>>, tk: Seq<Seq<char>>, a: (int, int), b: (int, int))
    requires
        is_best_tail(dk, tk, a.0, a.1),
        is_best_tail(dk, tk, b.0, b.1),
    ensures
        a == b,
{
    let ra = match_run(dk, tk, a.0, a.1, 0);
    let rb = match_run(dk, tk, b.0, b.1, 0);
    assert(rb <= ra);
    assert(ra <= rb);
}

/// The draft with its end replaced by a revising phrase: the draft up to the
/// revised word (trailing whitespace removed), a space when both sides are
/// non-empty, then the phrase from its matching word (leading whitespace
/// removed).
pub open spec fn revision_merge(draft: Seq<char>, text: Seq<char>) -> Option<Seq<char>> {
    let dw = comparable_spans(draft);
    let tw = comparable_spans(text);
    if dw.len() < 4 || tw.len() < 4 {
        None
    } else {
        match best_tail(span_keys(dw), span_keys(tw)) {
            None => None,
            Some(p) => {
                let prefix = trim_end(draft.take(dw[p.0].1));
                let suffix = trim_start(text.skip(tw[p.1].1));
                let sep = prefix.len() > 0 && suffix.len() > 0 && !char_is_whitespace(
                    prefix.last(),
                );
                Some(
                    prefix + (if sep {
                        seq![' ']
                    } else {
                        Seq::empty()
                    }) + suffix,
                )
            },
        }
    }
}

/// The draft after a refined phrase arrives: the phrase (compacted and
/// trimmed) replaces a blank draft, revises the draft's end where it repeats
/// it (see `revision_merge`), or is appended after a separating space.
pub open spec fn appended_draft(draft: Seq<char>, text: Seq<char>) -> Seq<char> {
    let t = trim(compact_restarted(text));
    if t.len() == 0 {
        draft
    } else if trim(draft).len() == 0 {
        t
    } else {
        match revision_merge(draft, t) {
            Some(m) => m,
            None => if draft.len() > 0 && !char_is_whitespace(draft.last()) {
                draft + seq![' '] + t
            } else {
                draft + t
            },
        }
    }
}

/// Counts the equal keys of two span lists from `ds` and `ts`.
fn span_match_run(dw: &Vec<WordSpan>, tw: &Vec<WordSpan>, ds: usize, ts: usize) -> (r: usize)
    requires
        ds < dw.len(),
        ts < tw.len(),
    ensures
        r == match_run(span_keys(spans_view(dw@)), span_keys(spans_view(tw@)), ds as int, ts as int, 0),
        r <= dw.len() - ds,
{
    let ghost dk = span_keys(spans_view(dw@));
    let ghost tk = span_keys(spans_view(tw@));
    let mut k: usize = 0;
    while ds + k < dw.len() && ts + k < tw.len() && chars_equal(&dw[ds + k].key, &tw[ts + k].key)
        invariant
            ds < dw.len(),
            ts < tw.len(),
            dk == span_keys(spans_view(dw@)),
            tk == span_keys(spans_view(tw@)),
            ds + k <= dw.len(),
            ts + k <= tw.len(),
            match_run(dk, tk, ds as int, ts as int, 0) == match_run(dk, tk, ds as int, ts as int, k as int),
        decreases dw.len() - ds - k,
    {
        k += 1;
    }
    k
}

/// Finds where a phrase revises the end of a draft; see `is_best_tail`.
fn find_revision_tail(dw: &Vec<WordSpan>, tw: &Vec<WordSpan>) -> (r: Option<(usize, usize)>)
    ensures
        r matches Some(p) ==> best_tail(span_keys(spans_view(dw@)), span_keys(spans_view(tw@)))
            == Some((p.0 as int, p.1 as int)),
        r is None ==> best_tail(span_keys(spans_view(dw@)), span_keys(spans_view(tw@))) is None,
{
    let ghost dk = span_keys(spans_view(dw@));
    let ghost tk = span_keys(spans_view(tw@));
    let text_prefix_limit = if tw.len() < 3 {
        tw.len()
    } else {
        3
    };
    let mut best: Option<(usize, usize, usize)> = None;
    let mut ds: usize = 0;
    while ds < dw.len()
        invariant
            dk == span_keys(spans_view(dw@)),
            tk == span_keys(spans_view(tw@)),
            dk.len() == dw.len(),
            tk.len() == tw.len(),
            text_prefix_limit == min_int(tw.len() as int, 3),
            ds <= dw.len(),
            best matches Some(b) ==> (tail_candidate(dk, tk, b.1 as int, b.2 as int) && b.0
                == match_run(dk, tk, b.1 as int, b.2 as int, 0) && (b.1 as int) < ds),
            forall|d2: int, t2: int|
                #![trigger match_run(dk, tk, d2, t2, 0)]
                tail_candidate(dk, tk, d2, t2) && d2 < ds ==> (match best {
                    None => false,
                    Some(b) => match_run(dk, tk, d2, t2, 0) < b.0 || (match_run(dk, tk, d2, t2, 0)
                        == b.0 && (d2 < b.1 || (d2 == b.1 && t2 >= b.2))),
                }),
        decreases dw.len() - ds,
    {
        let mut ts: usize = 0;
        while ts < text_prefix_limit
            invariant
                dk == span_keys(spans_view(dw@)),
                tk == span_keys(spans_view(tw@)),
                dk.len() == dw.len(),
                tk.len() == tw.len(),
                text_prefix_limit == min_int(tw.len() as int, 3),
                ds < dw.len(),
                ts <= text_prefix_limit,
                best matches Some(b) ==> (tail_candidate(dk, tk, b.1 as int, b.2 as int) && b.0
                    == match_run(dk, tk, b.1 as int, b.2 as int, 0) && ((b.1 as int) < ds || (b.1
                    == ds && (b.2 as int) < ts))),
                forall|d2: int, t2: int|
                    #![trigger match_run(dk, tk, d2, t2, 0)]
                    tail_candidate(dk, tk, d2, t2) && (d2 < ds || (d2 == ds && t2 < ts)) ==> (
                    match best {
                        None => false,
                        Some(b) => match_run(dk, tk, d2, t2, 0) < b.0 || (match_run(
                            dk,
                            tk,
                            d2,
                            t2,
                            0,
                        ) == b.0 && (d2 < b.1 || (d2 == b.1 && t2 >= b.2))),
                    }),
            decreases text_prefix_limit - ts,
        {
            let overlap = span_match_run(dw, tw, ds, ts);
            if overlap >= 4 && ds + overlap >= dw.len() - 1 {
                let replace = match best {
                    None => true,
                    Some(b) => overlap > b.0 || (overlap == b.0 && ds > b.1),
                };
                if replace {
                    best = Some((overlap, ds, ts));
                }
            }
            ts += 1;
        }
        ds += 1;
    }
    match best {
        None => {
            proof {
                if exists|p: (int, int)| is_best_tail(dk, tk, p.0, p.1) {
                    let p = choose|p: (int, int)| is_best_tail(dk, tk, p.0, p.1);
                    assert(tail_candidate(dk, tk, p.0, p.1));
                    assert(match_run(dk, tk, p.0, p.1, 0) == match_run(dk, tk, p.0, p.1, 0));
                }
            }
            None
        },
        Some(b) => {
            proof {
                let p = (b.1 as int, b.2 as int);
                assert(is_best_tail(dk, tk, p.0, p.1));
                let q = choose|q: (int, int)| is_best_tail(dk, tk, q.0, q.1);
                lemma_best_tail_unique(dk, tk, p, q);
            }
            Some((b.1, b.2))
        },
    }
}

/// Merges a phrase into the end of the draft it revises; see
/// `revision_merge`.
pub fn replace_typing_revision_tail(draft: &Vec<char>, text: &Vec<char>) -> (r: Option<Vec<char>>)
    ensures
        r matches Some(m) ==> revision_merge(draft@, text@) == Some(m@),
        r is None ==> revision_merge(draft@, text@) is None,
{
    let dw = comparable_word_spans(draft);
    let tw = comparable_word_spans(text);
    if dw.len() < 4 || tw.len() < 4 {
        return None;
    }
    proof {
        lemma_spans_bounds(draft@);
        lemma_spans_bounds(text@);
    }
    match find_revision_tail(&dw, &tw) {
        None => None,
        Some((draft_start, text_start)) => {
            assert(spans_view(dw@)[draft_start as int].1 == dw@[draft_start as int].start);
            assert(spans_view(tw@)[text_start as int].1 == tw@[text_start as int].start);
            let replace_from = dw[draft_start].start;
            let append_from = tw[text_start].start;
            let head = sub_vec(draft, 0, replace_from);
            let prefix = trim_end_vec(&head);
            let rest = sub_vec(text, append_from, text.len());
            assert(rest@ =~= text@.skip(append_from as int));
            let suffix = trim_start_vec(&rest);
            let mut merged = prefix;
            let ghost pv = merged@;
            if merged.len() > 0 && suffix.len() > 0 && !is_whitespace(merged[merged.len() - 1]) {
                merged.push(' ');
            }
            append_chars(&mut merged, &suffix);
            proof {
                if pv.len() > 0 && suffix@.len() > 0 && !char_is_whitespace(pv.last()) {
                    assert(merged@ =~= pv + seq![' '] + suffix@);
                } else {
                    assert(merged@ =~= pv + Seq::empty() + suffix@);
                }
            }
            Some(merged)
        },
    }
}

/// Adds a refined phrase to the typing draft; see `appended_draft`.
pub fn append_typing_text(draft: &mut String, text: &str)
    ensures
        final(draft)@ == appended_draft(old(draft)@, text@),
{
    let tv = chars_of(text);
    let compacted = compact_restarted_prefix(&tv);
    let t = trim_vec(&compacted);
    if t.len() == 0 {
        return;
    }
    let dv = chars_of(draft.as_str());
    if is_blank(&dv) {
        *draft = string_of(&t);
        return;
    }
    match replace_typing_revision_tail(&dv, &t) {
        Some(merged) => {
            *draft = string_of(&merged);
        },
        None => {
            let mut out = copy_chars(&dv);
            if !(out.len() > 0 && is_whitespace(out[out.len() - 1])) {
                out.push(' ');
            }
            append_chars(&mut out, &t);
            *draft = string_of(&out);
        },
    }
}

} // verus!
