//! Comparisons on sequences of words (or of word keys): shared prefixes,
//! contained runs, suffix/prefix overlaps and repeated revision spans.
use vstd::prelude::*;
use crate::text::{chars_equal, seqs};

verus! {

/// Length of the longest common prefix of `a` and `b`.
pub open spec fn common_prefix_len<A>(a: Seq<A>, b: Seq<A>) -> nat
    decreases a.len(),
{
    if a.len() == 0 || b.len() == 0 || a[0] != b[0] {
        0
    } else {
        1 + common_prefix_len(a.drop_first(), b.drop_first())
    }
}

pub proof fn lemma_common_prefix_bounds<A>(a: Seq<A>, b: Seq<A>)
    ensures
        common_prefix_len(a, b) <= a.len(),
        common_prefix_len(a, b) <= b.len(),
        forall|j: int| 0 <= j < common_prefix_len(a, b) ==> a[j] == b[j],
        common_prefix_len(a, b) < a.len() && common_prefix_len(a, b) < b.len() ==> a[common_prefix_len(a, b) as int] != b[common_prefix_len(a, b) as int],
    decreases a.len(),
{
    if !(a.len() == 0 || b.len() == 0 || a[0] != b[0]) {
        lemma_common_prefix_bounds(a.drop_first(), b.drop_first());
        let k = common_prefix_len(a, b);
        assert forall|j: int| 0 <= j < k implies a[j] == b[j] by {
            if j > 0 {
                assert(a.drop_first()[j - 1] == b.drop_first()[j - 1]);
            }
        }
    }
}

/// Characterizes the common prefix length by its defining properties.
pub proof fn lemma_common_prefix_unique<A>(a: Seq<A>, b: Seq<A>, k: int)
    requires
        0 <= k <= a.len(),
        k <= b.len(),
        forall|j: int| 0 <= j < k ==> a[j] == b[j],
        k == a.len() || k == b.len() || a[k] != b[k],
    ensures
        common_prefix_len(a, b) == k,
    decreases a.len(),
{
    if k > 0 {
        assert(a[0] == b[0]);
        let a1 = a.drop_first();
        let b1 = b.drop_first();
        assert forall|j: int| 0 <= j < k - 1 implies a1[j] == b1[j] by {
            assert(a[j + 1] == b[j + 1]);
        }
        if k < a.len() && k < b.len() {
            assert(a1[k - 1] == a[k]);
            assert(b1[k - 1] == b[k]);
        }
        lemma_common_prefix_unique(a1, b1, k - 1);
    }
}

/// Length of the longest common prefix of two word lists.
pub fn shared_prefix_len(a: &Vec<Vec<char>>, b: &Vec<Vec<char>>) -> (r: usize)
    ensures
        r == common_prefix_len(seqs(a@), seqs(b@)),
{
    let mut i: usize = 0;
    while i < a.len() && i < b.len() && chars_equal(&a[i], &b[i])
        invariant
            i <= a.len(),
            i <= b.len(),
            forall|j: int| 0 <= j < i ==> seqs(a@)[j] == seqs(b@)[j],
        decreases a.len() - i,
    {
        i += 1;
    }
    proof {
        lemma_common_prefix_unique(seqs(a@), seqs(b@), i as int);
    }
    i
}

/// Length of the longest common prefix of two character vectors.
pub fn shared_prefix_char_count(a: &Vec<char>, b: &Vec<char>) -> (r: usize)
    ensures
        r == common_prefix_len(a@, b@),
{
    let mut i: usize = 0;
    while i < a.len() && i < b.len() && a[i] == b[i]
        invariant
            i <= a.len(),
            i <= b.len(),
            forall|j: int| 0 <= j < i ==> a@[j] == b@[j],
        decreases a.len() - i,
    {
        i += 1;
    }
    proof {
        lemma_common_prefix_unique(a@, b@, i as int);
    }
    i
}

/// Whether `seqs(a)[i..i+n] == seqs(b)[j..j+n]`.
pub fn word_range_eq(a: &Vec<Vec<char>>, i: usize, b: &Vec<Vec<char>>, j: usize, n: usize) -> (r:
    bool)
    requires
        i + n <= a.len(),
        j + n <= b.len(),
    ensures
        r == (seqs(a@).subrange(i as int, i + n) == seqs(b@).subrange(j as int, j + n)),
{
    let mut k: usize = 0;
    while k < n
        invariant
            i + n <= a.len(),
            j + n <= b.len(),
            k <= n,
            forall|m: int| 0 <= m < k ==> #[trigger] seqs(a@).subrange(i as int, i + n)[m] == seqs(b@).subrange(j as int, j + n)[m],
        decreases n - k,
    {
        if !chars_equal(&a[i + k], &b[j + k]) {
            assert(seqs(a@).subrange(i as int, i + n)[k as int] != seqs(b@).subrange(
                j as int,
                j + n,
            )[k as int]);
            return false;
        }
        k += 1;
    }
    assert(seqs(a@).subrange(i as int, i + n) =~= seqs(b@).subrange(j as int, j + n));
    true
}

/// Whether a non-empty `needle` occurs as a contiguous run of `haystack`.
pub open spec fn contains_run<A>(haystack: Seq<A>, needle: Seq<A>) -> bool {
    &&& needle.len() > 0
    &&& needle.len() <= haystack.len()
    &&& exists|i: int|
        0 <= i <= haystack.len() - needle.len() && #[trigger] haystack.subrange(
            i,
            i + needle.len(),
        ) == needle
}

/// Whether `needle` is non-empty and occurs contiguously in `haystack`.
pub fn contains_word_sequence(haystack: &Vec<Vec<char>>, needle: &Vec<Vec<char>>) -> (r: bool)
    ensures
        r == contains_run(seqs(haystack@), seqs(needle@)),
{
    if needle.len() == 0 || needle.len() > haystack.len() {
        return false;
    }
    let n = needle.len();
    let mut i: usize = 0;
    while i <= haystack.len() - n
        invariant
            0 < n == needle.len() <= haystack.len(),
            i <= haystack.len() - n + 1,
            forall|k: int|
                0 <= k < i ==> #[trigger] seqs(haystack@).subrange(k, k + n) != seqs(needle@),
        decreases haystack.len() - n + 1 - i,
    {
        if word_range_eq(haystack, i, needle, 0, n) {
            assert(seqs(needle@).subrange(0, n as int) =~= seqs(needle@));
            return true;
        }
        assert(seqs(needle@).subrange(0, n as int) =~= seqs(needle@));
        i += 1;
    }
    false
}

/// The largest `k` in `[lo, o]` for which the last `k` items of `a` equal the
/// first `k` items of `b`, or 0 when there is none (`lo` is at least 1).
pub open spec fn overlap_search<A>(a: Seq<A>, b: Seq<A>, lo: int, o: int) -> int
    decreases o,
{
    if o < lo || o <= 0 || o > a.len() || o > b.len() {
        0
    } else if a.subrange(a.len() - o, a.len() as int) == b.subrange(0, o) {
        o
    } else {
        overlap_search(a, b, lo, o - 1)
    }
}

pub proof fn lemma_overlap_search_range<A>(a: Seq<A>, b: Seq<A>, lo: int, o: int)
    requires
        lo >= 1,
    ensures
        overlap_search(a, b, lo, o) == 0 || (lo <= overlap_search(a, b, lo, o) <= o
            && overlap_search(a, b, lo, o) <= a.len() && overlap_search(a, b, lo, o) <= b.len()),
    decreases o,
{
    if !(o < lo || o <= 0 || o > a.len() || o > b.len()) {
        if a.subrange(a.len() - o, a.len() as int) != b.subrange(0, o) {
            lemma_overlap_search_range(a, b, lo, o - 1);
        }
    }
}

/// The overlap search from `o` down finds the longest overlap of at least
/// `lo` items: when `k` is an overlap and no longer one up to `o` is, it
/// finds `k`.
pub proof fn overlap_search_finds_longest<A>(a: Seq<A>, b: Seq<A>, lo: int, o: int, k: int)
    requires
        1 <= lo <= k <= o,
        o <= a.len(),
        o <= b.len(),
        a.subrange(a.len() - k, a.len() as int) == b.subrange(0, k),
        forall|j: int| k < j <= o ==> a.subrange(a.len() - j, a.len() as int) != #[trigger] b.subrange(0, j),
    ensures
        overlap_search(a, b, lo, o) == k,
    decreases o,
{
    if o > k {
        assert(a.subrange(a.len() - o, a.len() as int) != b.subrange(0, o));
        overlap_search_finds_longest(a, b, lo, o - 1, k);
    }
}

/// The overlap search finds nothing when no overlap of `lo` to `o` items
/// exists.
pub proof fn overlap_search_finds_none<A>(a: Seq<A>, b: Seq<A>, lo: int, o: int)
    requires
        forall|j: int| lo <= j <= o && 0 < j <= a.len() && j <= b.len() ==> a.subrange(a.len() - j, a.len() as int)
            != #[trigger] b.subrange(0, j),
    ensures
        overlap_search(a, b, lo, o) == 0,
    decreases o,
{
    if !(o < lo || o <= 0 || o > a.len() || o > b.len()) {
        assert(a.subrange(a.len() - o, a.len() as int) != b.subrange(0, o));
        overlap_search_finds_none(a, b, lo, o - 1);
    }
}

/// Finds the largest overlap in `[lo, hi]` where the end of `a` equals the
/// start of `b`; 0 when none.
pub fn find_overlap(a: &Vec<Vec<char>>, b: &Vec<Vec<char>>, lo: usize, hi: usize) -> (r: usize)
    requires
        lo >= 1,
        hi <= a.len(),
        hi <= b.len(),
    ensures
        r == overlap_search(seqs(a@), seqs(b@), lo as int, hi as int),
{
    let mut o: usize = hi;
    while o >= lo && o > 0
        invariant
            o <= hi <= a.len(),
            hi <= b.len(),
            lo >= 1,
            overlap_search(seqs(a@), seqs(b@), lo as int, hi as int) == overlap_search(
                seqs(a@),
                seqs(b@),
                lo as int,
                o as int,
            ),
        decreases o,
    {
        if word_range_eq(a, a.len() - o, b, 0, o) {
            return o;
        }
        o -= 1;
    }
    0
}

// ---------------------------------------------------------------------------
// Repeated revision spans
// ---------------------------------------------------------------------------

/// Number of the smallest restart prefix: a repeated run must have at least
/// this many words.
pub open spec fn min_restart_words() -> int {
    4
}

/// Length of the matching run of `t` starting at `f` and at `s`, counted from
/// `k` and capped at `cap` items.
pub open spec fn run_from<A>(t: Seq<A>, f: int, s: int, k: int, cap: int) -> int
    decreases cap - k,
{
    if k < cap && t[f + k] == t[s + k] {
        run_from(t, f, s, k + 1, cap)
    } else {
        k
    }
}

/// The overlap of the runs starting at `f` and at `s`, which may not reach
/// past `s` nor past the end of `t`.
pub open spec fn span_overlap<A>(t: Seq<A>, f: int, s: int) -> int {
    let cap = if s - f < t.len() - s {
        s - f
    } else {
        t.len() - s
    };
    run_from(t, f, s, 0, cap)
}

pub open spec fn pair_before(f1: int, s1: int, f2: int, s2: int) -> bool {
    f1 < f2 || (f1 == f2 && s1 < s2)
}

pub open spec fn valid_pair<A>(t: Seq<A>, f: int, s: int) -> bool {
    0 <= f < s < t.len()
}

/// `(f, s, o)` is the repeated revision span of `t`: its overlap `o` is at
/// least the minimum, no pair has a larger overlap, and no earlier pair (in
/// the order `f`, then `s`) has an equal one.
pub open spec fn is_best_span<A>(t: Seq<A>, f: int, s: int, o: int) -> bool {
    &&& valid_pair(t, f, s)
    &&& o == span_overlap(t, f, s)
    &&& o >= min_restart_words()
    &&& forall|f2: int, s2: int|
        #![trigger span_overlap(t, f2, s2)]
        valid_pair(t, f2, s2) ==> span_overlap(t, f2, s2) <= o
    &&& forall|f2: int, s2: int|
        #![trigger span_overlap(t, f2, s2)]
        valid_pair(t, f2, s2) && pair_before(f2, s2, f, s) ==> span_overlap(t, f2, s2) < o
}

pub open spec fn has_no_span<A>(t: Seq<A>) -> bool {
    forall|f: int, s: int|
        #![trigger span_overlap(t, f, s)]
        valid_pair(t, f, s) ==> span_overlap(t, f, s) < min_restart_words()
}

/// The repeated revision span of `t`, if any.
pub open spec fn best_span<A>(t: Seq<A>) -> Option<(int, int, int)> {
    if has_no_span(t) {
        None
    } else {
        Some(choose|p: (int, int, int)| is_best_span(t, p.0, p.1, p.2))
    }
}

proof fn lemma_best_span_unique<A>(t: Seq<A>, f1: int, s1: int, o1: int, f2: int, s2: int, o2: int)
    requires
        is_best_span(t, f1, s1, o1),
        is_best_span(t, f2, s2, o2),
    ensures
        f1 == f2 && s1 == s2 && o1 == o2,
{
    assert(span_overlap(t, f2, s2) <= o1);
    assert(span_overlap(t, f1, s1) <= o2);
    if pair_before(f1, s1, f2, s2) {
        assert(span_overlap(t, f1, s1) < o2);
    } else if pair_before(f2, s2, f1, s1) {
        assert(span_overlap(t, f2, s2) < o1);
    }
}

pub proof fn lemma_best_span_props<A>(t: Seq<A>)
    ensures
        best_span(t) matches Some(p) ==> is_best_span(t, p.0, p.1, p.2),
{
    if !has_no_span(t) {
        let (f0, s0) = choose|f: int, s: int|
            #![trigger span_overlap(t, f, s)]
            valid_pair(t, f, s) && span_overlap(t, f, s) >= min_restart_words();
        lemma_best_exists(t, f0, s0);
    }
}

proof fn lemma_run_from_bound<A>(t: Seq<A>, f: int, s: int, k: int, cap: int)
    requires
        k <= cap,
    ensures
        k <= run_from(t, f, s, k, cap) <= cap,
    decreases cap - k,
{
    if k < cap && t[f + k] == t[s + k] {
        lemma_run_from_bound(t, f, s, k + 1, cap);
    }
}

/// Some pair reaches the minimum, so a best span exists.
proof fn lemma_best_exists<A>(t: Seq<A>, f0: int, s0: int)
    requires
        valid_pair(t, f0, s0),
        span_overlap(t, f0, s0) >= min_restart_words(),
    ensures
        exists|p: (int, int, int)| is_best_span(t, p.0, p.1, p.2),
{
    // the maximum overlap over all pairs
    let m = max_overlap_upto(t, t.len() as int, 0);
    lemma_max_overlap_upto(t, t.len() as int, 0);
    assert(span_overlap(t, f0, s0) <= m);
    // the first pair reaching it
    let (f, s) = first_reaching(t, m);
    let p = (f, s, m);
    assert(is_best_span(t, p.0, p.1, p.2));
}

/// The largest overlap over the pairs whose first index is below `fcap`
/// (0 when there is none), starting the search from `acc`.
spec fn max_overlap_upto<A>(t: Seq<A>, fcap: int, acc: int) -> int
    decreases fcap,
{
    if fcap <= 0 {
        acc
    } else {
        let f = fcap - 1;
        let m = max_over_s(t, f, t.len() as int, acc);
        max_overlap_upto(t, f, m)
    }
}

spec fn max_over_s<A>(t: Seq<A>, f: int, scap: int, acc: int) -> int
    decreases scap,
{
    if scap <= f + 1 || scap <= 0 {
        acc
    } else {
        let s = scap - 1;
        let o = span_overlap(t, f, s);
        max_over_s(t, f, s, if o > acc { o } else { acc })
    }
}

proof fn lemma_max_over_s<A>(t: Seq<A>, f: int, scap: int, acc: int)
    requires
        0 <= f,
        scap <= t.len(),
    ensures
        max_over_s(t, f, scap, acc) >= acc,
        forall|s: int| f < s < scap ==> span_overlap(t, f, s) <= max_over_s(t, f, scap, acc),
        max_over_s(t, f, scap, acc) == acc || exists|s: int|
            f < s < scap && span_overlap(t, f, s) == max_over_s(t, f, scap, acc),
    decreases scap,
{
    if !(scap <= f + 1 || scap <= 0) {
        let s = scap - 1;
        let o = span_overlap(t, f, s);
        let acc2 = if o > acc {
            o
        } else {
            acc
        };
        lemma_max_over_s(t, f, s, acc2);
    }
}

proof fn lemma_max_overlap_upto<A>(t: Seq<A>, fcap: int, acc: int)
    requires
        fcap <= t.len(),
    ensures
        max_overlap_upto(t, fcap, acc) >= acc,
        forall|f: int, s: int|
            valid_pair(t, f, s) && f < fcap ==> span_overlap(t, f, s) <= max_overlap_upto(
                t,
                fcap,
                acc,
            ),
        max_overlap_upto(t, fcap, acc) == acc || exists|f: int, s: int|
            valid_pair(t, f, s) && f < fcap && span_overlap(t, f, s) == max_overlap_upto(
                t,
                fcap,
                acc,
            ),
    decreases fcap,
{
    if fcap > 0 {
        let f = fcap - 1;
        let m = max_over_s(t, f, t.len() as int, acc);
        lemma_max_over_s(t, f, t.len() as int, acc);
        lemma_max_overlap_upto(t, f, m);
        let r = max_overlap_upto(t, fcap, acc);
        assert forall|f2: int, s2: int|
            valid_pair(t, f2, s2) && f2 < fcap implies span_overlap(t, f2, s2) <= r by {
            if f2 == f {
                assert(span_overlap(t, f2, s2) <= m);
            }
        }
        if r != acc {
            if r == m {
                if m != acc {
                    let s = choose|s: int| f < s < t.len() && span_overlap(t, f, s) == m;
                    assert(valid_pair(t, f, s));
                }
            }
        }
    }
}

/// The first pair (in the order `f`, then `s`) whose overlap is at least `m`,
/// given that the maximum overlap is exactly `m` and reached.
proof fn first_reaching<A>(t: Seq<A>, m: int) -> (r: (int, int))
    requires
        exists|f: int, s: int| valid_pair(t, f, s) && span_overlap(t, f, s) == m,
        forall|f: int, s: int| valid_pair(t, f, s) ==> span_overlap(t, f, s) <= m,
    ensures
        valid_pair(t, r.0, r.1),
        span_overlap(t, r.0, r.1) == m,
        forall|f2: int, s2: int|
            valid_pair(t, f2, s2) && pair_before(f2, s2, r.0, r.1) ==> span_overlap(t, f2, s2) < m,
{
    let (fw, sw) = choose|f: int, s: int| valid_pair(t, f, s) && span_overlap(t, f, s) == m;
    first_reaching_from(t, m, fw, sw)
}

proof fn first_reaching_from<A>(t: Seq<A>, m: int, fw: int, sw: int) -> (r: (int, int))
    requires
        valid_pair(t, fw, sw),
        span_overlap(t, fw, sw) == m,
        forall|f: int, s: int| valid_pair(t, f, s) ==> span_overlap(t, f, s) <= m,
    ensures
        valid_pair(t, r.0, r.1),
        span_overlap(t, r.0, r.1) == m,
        forall|f2: int, s2: int|
            valid_pair(t, f2, s2) && pair_before(f2, s2, r.0, r.1) ==> span_overlap(t, f2, s2) < m,
    decreases fw, sw,
{
    if exists|f2: int, s2: int|
        valid_pair(t, f2, s2) && pair_before(f2, s2, fw, sw) && span_overlap(t, f2, s2) == m {
        let (f2, s2) = choose|f2: int, s2: int|
            valid_pair(t, f2, s2) && pair_before(f2, s2, fw, sw) && span_overlap(t, f2, s2) == m;
        first_reaching_from(t, m, f2, s2)
    } else {
        (fw, sw)
    }
}

/// Finds the repeated revision span: two starting positions `f < s` whose
/// following runs of keys agree for at least four items, without the first
/// run reaching past `s`; the longest such agreement wins, and among equal
/// ones the first found in the order `f`, then `s`.
pub fn repeated_revision_span(tokens: &Vec<Vec<char>>) -> (r: Option<(usize, usize, usize)>)
    ensures
        r matches Some(p) ==> best_span(seqs(tokens@)) == Some((p.0 as int, p.1 as int, p.2 as int)),
        r is None ==> best_span(seqs(tokens@)) is None,
{
    let ghost t = seqs(tokens@);
    let n = tokens.len();
    let mut best: Option<(usize, usize, usize)> = None;
    let mut first: usize = 0;
    while first < n
        invariant
            n == tokens.len() == t.len(),
            t == seqs(tokens@),
            first <= n,
            best matches Some(p) ==> (valid_pair(t, p.0 as int, p.1 as int) && p.2
                == span_overlap(t, p.0 as int, p.1 as int) && p.2 >= 4 && (p.0 as int) < first),
            forall|f2: int, s2: int|
                #![trigger span_overlap(t, f2, s2)]
                valid_pair(t, f2, s2) && f2 < first ==> (match best {
                    None => span_overlap(t, f2, s2) < 4,
                    Some(p) => span_overlap(t, f2, s2) <= p.2 && (pair_before(
                        f2,
                        s2,
                        p.0 as int,
                        p.1 as int,
                    ) ==> span_overlap(t, f2, s2) < p.2),
                }),
        decreases n - first,
    {
        let mut second: usize = first + 1;
        while second < n
            invariant
                n == tokens.len() == t.len(),
                t == seqs(tokens@),
                first < n,
                first + 1 <= second <= n,
                best matches Some(p) ==> (valid_pair(t, p.0 as int, p.1 as int) && p.2
                    == span_overlap(t, p.0 as int, p.1 as int) && p.2 >= 4 && ((p.0 as int)
                    < first || (p.0 == first && (p.1 as int) < second))),
                forall|f2: int, s2: int|
                    #![trigger span_overlap(t, f2, s2)]
                    valid_pair(t, f2, s2) && (f2 < first || (f2 == first && s2 < second)) ==> (
                    match best {
                        None => span_overlap(t, f2, s2) < 4,
                        Some(p) => span_overlap(t, f2, s2) <= p.2 && (pair_before(
                            f2,
                            s2,
                            p.0 as int,
                            p.1 as int,
                        ) ==> span_overlap(t, f2, s2) < p.2),
                    }),
            decreases n - second,
        {
            let max_overlap = if second - first < n - second {
                second - first
            } else {
                n - second
            };
            let mut overlap: usize = 0;
            while overlap < max_overlap && chars_equal(&tokens[first + overlap], &tokens[second + overlap])
                invariant
                    n == tokens.len() == t.len(),
                    t == seqs(tokens@),
                    first < second < n,
                    max_overlap == (if second - first < n - second { second - first } else { n - second }),
                    overlap <= max_overlap,
                    run_from(t, first as int, second as int, 0, max_overlap as int) == run_from(
                        t,
                        first as int,
                        second as int,
                        overlap as int,
                        max_overlap as int,
                    ),
                decreases max_overlap - overlap,
            {
                overlap += 1;
            }
            assert(span_overlap(t, first as int, second as int) == overlap);
            if overlap >= 4 {
                let replace = match best {
                    None => true,
                    Some(b) => overlap > b.2,
                };
                if replace {
                    best = Some((first, second, overlap));
                }
            }
            second += 1;
        }
        first += 1;
    }
    proof {
        match best {
            None => {
                assert(has_no_span(t));
            },
            Some(p) => {
                assert(is_best_span(t, p.0 as int, p.1 as int, p.2 as int));
                assert(!has_no_span(t));
                lemma_best_span_props(t);
                let q = best_span(t)->0;
                lemma_best_span_unique(t, p.0 as int, p.1 as int, p.2 as int, q.0, q.1, q.2);
            },
        }
    }
    best
}

} // verus!
