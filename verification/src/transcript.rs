//! Merging of rolling-window transcript estimates: removal of restarted
//! revisions inside one hypothesis, and reconciliation of a new hypothesis
//! with the current estimate.
use vstd::prelude::*;
use crate::text::{
    chars_of, copy_chars, is_blank, sub_vec, join_word_vec, join_words, seqs, split_words, string_of, token_keys,
    trim, trim_vec, words_of, compare_tokens,
};
use crate::words::{
    best_span, common_prefix_len, contains_run, contains_word_sequence, find_overlap,
    lemma_best_span_props, lemma_common_prefix_bounds, lemma_overlap_search_range,
    overlap_search, repeated_revision_span, shared_prefix_len,
};

verus! {

/// Fewest words a hypothesis needs before restarted revisions are looked for
/// (twice the minimum restart prefix).
pub open spec fn compact_threshold() -> int {
    8
}

/// Repeatedly removes the repeated revision span of a word list: the words
/// from the first occurrence up to the second are dropped, until no span is
/// left or fewer than eight words remain.
pub open spec fn compact_words(ws: Seq<Seq<char>>) -> Seq<Seq<char>>
    decreases ws.len(),
{
    match best_span(token_keys(ws)) {
        None => ws,
        Some(p) => {
            proof {
                lemma_best_span_props(token_keys(ws));
            }
            let nw = ws.take(p.0) + ws.skip(p.1);
            if nw.len() < compact_threshold() {
                nw
            } else {
                compact_words(nw)
            }
        },
    }
}

/// A hypothesis with its restarted revisions removed: text of fewer than
/// eight words is only trimmed; otherwise the compacted words are joined by
/// single spaces.
pub open spec fn compact_restarted(text: Seq<char>) -> Seq<char> {
    let ws = words_of(text);
    if ws.len() < compact_threshold() {
        trim(text)
    } else {
        join_words(compact_words(ws))
    }
}

/// Removes restarted revisions inside one hypothesis: when a run of at least
/// four words recurs later, the earlier copy and everything between the two
/// copies are dropped.
pub fn compact_restarted_prefix(text: &Vec<char>) -> (r: Vec<char>)
    ensures
        r@ == compact_restarted(text@),
{
    let mut words = split_words(text);
    if words.len() < 8 {
        return trim_vec(text);
    }
    let ghost original = seqs(words@);
    let mut done = false;
    while !done
        invariant
            done ==> compact_words(original) == seqs(words@),
            !done ==> compact_words(original) == compact_words(seqs(words@)),
            !done ==> words.len() >= 8,
        decreases words.len(), if done { 0int } else { 1int },
    {
        let keys = compare_tokens(&words);
        proof {
            lemma_best_span_props(token_keys(seqs(words@)));
        }
        match repeated_revision_span(&keys) {
            None => {
                done = true;
            },
            Some((first_start, second_start, _overlap)) => {
                let ghost ws = seqs(words@);
                let mut compacted: Vec<Vec<char>> = Vec::new();
                let mut i: usize = 0;
                while i < first_start
                    invariant
                        first_start < second_start < words.len(),
                        i <= first_start,
                        ws == seqs(words@),
                        seqs(compacted@) == ws.take(i as int),
                    decreases first_start - i,
                {
                    let x = copy_chars(&words[i]);
                    let ghost before = seqs(compacted@);
                    compacted.push(x);
                    assert(seqs(compacted@) =~= before.push(ws[i as int]));
                    i += 1;
                    assert(ws.take(i as int) =~= ws.take(i - 1).push(ws[i - 1]));
                }
                let mut j: usize = second_start;
                while j < words.len()
                    invariant
                        first_start < second_start <= j <= words.len(),
                        ws == seqs(words@),
                        seqs(compacted@) == ws.take(first_start as int) + ws.subrange(
                            second_start as int,
                            j as int,
                        ),
                    decreases words.len() - j,
                {
                    let x = copy_chars(&words[j]);
                    let ghost before = seqs(compacted@);
                    compacted.push(x);
                    assert(seqs(compacted@) =~= before.push(ws[j as int]));
                    j += 1;
                    assert(ws.take(first_start as int) + ws.subrange(second_start as int, j as int)
                        =~= (ws.take(first_start as int) + ws.subrange(second_start as int, j - 1)).push(ws[j - 1]));
                }
                assert(ws.subrange(second_start as int, ws.len() as int) =~= ws.skip(
                    second_start as int,
                ));
                words = compacted;
                if words.len() < 8 {
                    done = true;
                }
            },
        }
    }
    join_word_vec(&words)
}

/// The smaller of two integers.
pub open spec fn min_int(a: int, b: int) -> int {
    if a < b {
        a
    } else {
        b
    }
}

/// How the current transcript estimate `existing` is reconciled with a new
/// hypothesis `current` of an overlapping audio window.
///
/// Both are first compacted and trimmed; an empty side yields the other. When
/// the word keys of one side contain those of the other as a contiguous run,
/// the containing side wins. A shared prefix of at least four words that ends
/// before either side does means `current` revised the tail, and `current`
/// wins unless its tail is shorter and it is more than two words shorter
/// overall. Otherwise the longest overlap (at least two words, or one when a
/// side has at most two) of the end of `existing` with the start of `current`
/// chains them; failing that, the end of `current` with the start of
/// `existing`; failing that, the two are joined with a space.
pub open spec fn merge_estimate(existing: Seq<char>, current: Seq<char>) -> Seq<char> {
    let e = trim(compact_restarted(existing));
    let c = trim(compact_restarted(current));
    if e.len() == 0 {
        c
    } else if c.len() == 0 {
        e
    } else {
        let ew = words_of(e);
        let cw = words_of(c);
        if ew.len() == 0 {
            c
        } else if cw.len() == 0 {
            e
        } else {
            let ek = token_keys(ew);
            let ck = token_keys(cw);
            if contains_run(ck, ek) {
                c
            } else if contains_run(ek, ck) {
                e
            } else {
                let max_o = min_int(ek.len() as int, ck.len() as int);
                let sp = common_prefix_len(ek, ck) as int;
                if sp >= 4 && sp < max_o && (cw.len() - sp >= ew.len() - sp || cw.len() + 2
                    >= ew.len()) {
                    c
                } else {
                    let min_o = if max_o <= 2 {
                        1int
                    } else {
                        2int
                    };
                    let o1 = overlap_search(ek, ck, min_o, max_o);
                    if o1 > 0 {
                        join_words(ew.take(ew.len() - o1) + cw)
                    } else {
                        let o2 = overlap_search(ck, ek, min_o, max_o);
                        if o2 > 0 {
                            join_words(cw.take(cw.len() - o2) + ew)
                        } else {
                            e + seq![' '] + c
                        }
                    }
                }
            }
        }
    }
}

/// Copies `ws[lo..hi]` onto the end of `out`.
fn push_word_range(out: &mut Vec<Vec<char>>, ws: &Vec<Vec<char>>, lo: usize, hi: usize)
    requires
        lo <= hi <= ws.len(),
    ensures
        seqs(final(out)@) == seqs(old(out)@) + seqs(ws@).subrange(lo as int, hi as int),
{
    let ghost start = seqs(out@);
    let mut i: usize = lo;
    while i < hi
        invariant
            lo <= i <= hi <= ws.len(),
            seqs(out@) == start + seqs(ws@).subrange(lo as int, i as int),
        decreases hi - i,
    {
        let x = copy_chars(&ws[i]);
        let ghost before = seqs(out@);
        out.push(x);
        assert(seqs(out@) =~= before.push(seqs(ws@)[i as int]));
        i += 1;
        assert(start + seqs(ws@).subrange(lo as int, i as int) =~= (start + seqs(ws@).subrange(lo as int, i - 1)).push(seqs(ws@)[i - 1]));
    }
}

/// Merges the current estimate with a new hypothesis of an overlapping window
/// (see `merge_estimate`).
pub fn merge_estimate_chars(existing: &Vec<char>, current: &Vec<char>) -> (r: Vec<char>)
    ensures
        r@ == merge_estimate(existing@, current@),
{
    let existing_c = compact_restarted_prefix(existing);
    let current_c = compact_restarted_prefix(current);
    let e = trim_vec(&existing_c);
    let c = trim_vec(&current_c);
    if e.len() == 0 {
        return c;
    }
    if c.len() == 0 {
        return e;
    }
    let ew = split_words(&e);
    let cw = split_words(&c);
    if ew.len() == 0 {
        return c;
    }
    if cw.len() == 0 {
        return e;
    }
    let ek = compare_tokens(&ew);
    let ck = compare_tokens(&cw);
    if contains_word_sequence(&ck, &ek) {
        return c;
    }
    if contains_word_sequence(&ek, &ck) {
        return e;
    }
    let max_overlap = if ek.len() < ck.len() {
        ek.len()
    } else {
        ck.len()
    };
    let shared_prefix = shared_prefix_len(&ek, &ck);
    proof {
        lemma_common_prefix_bounds(seqs(ek@), seqs(ck@));
    }
    if shared_prefix >= 4 && shared_prefix < max_overlap {
        let existing_tail_len = ew.len() - shared_prefix;
        let current_tail_len = cw.len() - shared_prefix;
        if current_tail_len >= existing_tail_len || cw.len() >= ew.len() || ew.len() - cw.len() <= 2 {
            return c;
        }
    }
    let min_overlap: usize = if max_overlap <= 2 {
        1
    } else {
        2
    };
    let o1 = find_overlap(&ek, &ck, min_overlap, max_overlap);
    proof {
        lemma_overlap_search_range(seqs(ek@), seqs(ck@), min_overlap as int, max_overlap as int);
    }
    if o1 > 0 {
        let mut words: Vec<Vec<char>> = Vec::new();
        push_word_range(&mut words, &ew, 0, ew.len() - o1);
        push_word_range(&mut words, &cw, 0, cw.len());
        assert(seqs(ew@).subrange(0, ew.len() - o1) =~= seqs(ew@).take(ew.len() - o1));
        assert(seqs(cw@).subrange(0, cw.len() as int) =~= seqs(cw@));
        return join_word_vec(&words);
    }
    let o2 = find_overlap(&ck, &ek, min_overlap, max_overlap);
    proof {
        lemma_overlap_search_range(seqs(ck@), seqs(ek@), min_overlap as int, max_overlap as int);
    }
    if o2 > 0 {
        let mut words: Vec<Vec<char>> = Vec::new();
        push_word_range(&mut words, &cw, 0, cw.len() - o2);
        push_word_range(&mut words, &ew, 0, ew.len());
        assert(seqs(cw@).subrange(0, cw.len() - o2) =~= seqs(cw@).take(cw.len() - o2));
        assert(seqs(ew@).subrange(0, ew.len() as int) =~= seqs(ew@));
        return join_word_vec(&words);
    }
    let mut out = e;
    out.push(' ');
    crate::text::append_chars(&mut out, &c);
    out
}

/// Merges the current transcript estimate with a new hypothesis of an
/// overlapping audio window.
pub fn merge_transcript_estimate(existing: &str, current: &str) -> (r: String)
    ensures
        r@ == merge_estimate(existing@, current@),
{
    let e = chars_of(existing);
    let c = chars_of(current);
    let merged = merge_estimate_chars(&e, &c);
    string_of(&merged)
}

/// Merging into an empty estimate gives the new hypothesis, compacted and
/// trimmed; merging an empty hypothesis keeps the estimate, compacted and
/// trimmed.
pub proof fn merge_with_empty_side(x: Seq<char>)
    ensures
        merge_estimate(Seq::empty(), x) == trim(compact_restarted(x)),
        merge_estimate(x, Seq::empty()) == trim(compact_restarted(x)),
{
    let e: Seq<char> = Seq::empty();
    assert(words_of(e) =~= Seq::<Seq<char>>::empty());
    crate::text::trim_of_unpadded(e);
    assert(compact_restarted(e) == e);
}

/// Merging a compacted, trimmed estimate with itself gives it back.
pub proof fn merge_with_itself(x: Seq<char>)
    requires
        x == trim(compact_restarted(x)),
    ensures
        merge_estimate(x, x) == x,
{
    let w = words_of(x);
    let k = token_keys(w);
    if x.len() > 0 && w.len() > 0 {
        assert(k.len() == w.len());
        let i: int = 0;
        assert(k.subrange(i, i + k.len()) =~= k);
        assert(contains_run(k, k));
    }
}

/// A hypothesis whose comparison keys contain those of the estimate, as a
/// contiguous non-empty run, replaces the estimate (both compacted first).
pub proof fn merge_keeps_containing_hypothesis(existing: Seq<char>, current: Seq<char>)
    requires
        token_keys(words_of(compact_restarted(existing))).len() > 0,
        contains_run(
            token_keys(words_of(compact_restarted(current))),
            token_keys(words_of(compact_restarted(existing))),
        ),
    ensures
        merge_estimate(existing, current) == trim(compact_restarted(current)),
{
    let ce = compact_restarted(existing);
    let cc = compact_restarted(current);
    crate::text::words_of_trim(ce);
    crate::text::words_of_trim(cc);
    let e: Seq<char> = Seq::empty();
    assert(words_of(e) =~= Seq::<Seq<char>>::empty());
    if trim(ce).len() == 0 {
        assert(trim(ce) =~= e);
    }
    if trim(cc).len() == 0 {
        assert(trim(cc) =~= e);
    }
}

/// When the end of the estimate overlaps the start of the hypothesis by
/// `k` words (at least two, compared by key, and no longer overlap
/// exists), neither holds the other and they share fewer than four leading
/// words, the merge is the estimate without its last `k` words followed by
/// the whole hypothesis: the overlapping words appear once, and the merge
/// has `k` words fewer than the two together.
pub proof fn merge_drops_the_overlap(existing: Seq<char>, current: Seq<char>, k: int)
    requires
        ({
            let ew = words_of(trim(compact_restarted(existing)));
            let cw = words_of(trim(compact_restarted(current)));
            let ek = token_keys(ew);
            let ck = token_keys(cw);
            &&& 2 <= k <= ek.len()
            &&& k <= ck.len()
            &&& ek.subrange(ek.len() - k, ek.len() as int) == ck.subrange(0, k)
            &&& forall|j: int| k < j <= ek.len() && j <= ck.len() ==> ek.subrange(ek.len() - j, ek.len() as int)
                != #[trigger] ck.subrange(0, j)
            &&& !contains_run(ck, ek)
            &&& !contains_run(ek, ck)
            &&& common_prefix_len(ek, ck) < 4
        }),
    ensures
        ({
            let ew = words_of(trim(compact_restarted(existing)));
            let cw = words_of(trim(compact_restarted(current)));
            let merged = merge_estimate(existing, current);
            &&& merged == join_words(ew.take(ew.len() - k) + cw)
            &&& words_of(merged) == ew.take(ew.len() - k) + cw
            &&& words_of(merged).len() == ew.len() + cw.len() - k
        }),
{
    let e = trim(compact_restarted(existing));
    let c = trim(compact_restarted(current));
    let ew = words_of(e);
    let cw = words_of(c);
    let ek = token_keys(ew);
    let ck = token_keys(cw);
    let empty: Seq<char> = Seq::empty();
    assert(words_of(empty) =~= Seq::<Seq<char>>::empty());
    if e.len() == 0 {
        assert(e =~= empty);
    }
    if c.len() == 0 {
        assert(c =~= empty);
    }
    let max_o = min_int(ek.len() as int, ck.len() as int);
    let min_o = if max_o <= 2 { 1int } else { 2int };
    crate::words::overlap_search_finds_longest(ek, ck, min_o, max_o, k);
    let merged_words = ew.take(ew.len() - k) + cw;
    crate::text::words_are_plain(e);
    crate::text::words_are_plain(c);
    assert forall|i: int| 0 <= i < merged_words.len() implies crate::text::plain_word(#[trigger] merged_words[i]) by {
        if i < ew.len() - k {
            assert(merged_words[i] == ew[i]);
        } else {
            assert(merged_words[i] == cw[i - (ew.len() - k)]);
        }
    }
    crate::text::words_of_joined(merged_words);
}

/// When the end of the hypothesis overlaps the start of the estimate by
/// `k` words (at least two, by key, the longest such overlap) and the
/// estimate's end does not overlap the hypothesis's start at all, neither
/// holds the other and they share fewer than four leading words, the merge
/// is the hypothesis without its last `k` words followed by the whole
/// estimate.
pub proof fn merge_drops_the_reverse_overlap(existing: Seq<char>, current: Seq<char>, k: int)
    requires
        ({
            let ew = words_of(trim(compact_restarted(existing)));
            let cw = words_of(trim(compact_restarted(current)));
            let ek = token_keys(ew);
            let ck = token_keys(cw);
            &&& 2 <= k <= ek.len()
            &&& k <= ck.len()
            &&& ck.subrange(ck.len() - k, ck.len() as int) == ek.subrange(0, k)
            &&& forall|j: int| k < j <= ek.len() && j <= ck.len() ==> ck.subrange(ck.len() - j, ck.len() as int)
                != #[trigger] ek.subrange(0, j)
            &&& forall|j: int| 0 < j <= ek.len() && j <= ck.len() ==> ek.subrange(ek.len() - j, ek.len() as int)
                != #[trigger] ck.subrange(0, j)
            &&& !contains_run(ck, ek)
            &&& !contains_run(ek, ck)
            &&& common_prefix_len(ek, ck) < 4
        }),
    ensures
        ({
            let ew = words_of(trim(compact_restarted(existing)));
            let cw = words_of(trim(compact_restarted(current)));
            let merged = merge_estimate(existing, current);
            &&& merged == join_words(cw.take(cw.len() - k) + ew)
            &&& words_of(merged) == cw.take(cw.len() - k) + ew
            &&& words_of(merged).len() == ew.len() + cw.len() - k
        }),
{
    let e = trim(compact_restarted(existing));
    let c = trim(compact_restarted(current));
    let ew = words_of(e);
    let cw = words_of(c);
    let ek = token_keys(ew);
    let ck = token_keys(cw);
    let empty: Seq<char> = Seq::empty();
    assert(words_of(empty) =~= Seq::<Seq<char>>::empty());
    if e.len() == 0 {
        assert(e =~= empty);
    }
    if c.len() == 0 {
        assert(c =~= empty);
    }
    let max_o = min_int(ek.len() as int, ck.len() as int);
    let min_o = if max_o <= 2 { 1int } else { 2int };
    crate::words::overlap_search_finds_none(ek, ck, min_o, max_o);
    crate::words::overlap_search_finds_longest(ck, ek, min_o, max_o, k);
    let merged_words = cw.take(cw.len() - k) + ew;
    crate::text::words_are_plain(e);
    crate::text::words_are_plain(c);
    assert forall|i: int| 0 <= i < merged_words.len() implies crate::text::plain_word(#[trigger] merged_words[i]) by {
        if i < cw.len() - k {
            assert(merged_words[i] == cw[i]);
        } else {
            assert(merged_words[i] == ew[i - (cw.len() - k)]);
        }
    }
    crate::text::words_of_joined(merged_words);
}

/// When the estimate and the hypothesis neither hold nor overlap each
/// other and share fewer than four leading words, the merge keeps every
/// word of both: the estimate's words followed by the hypothesis's.
pub proof fn merge_appends_unrelated_hypothesis(existing: Seq<char>, current: Seq<char>)
    requires
        ({
            let ew = words_of(trim(compact_restarted(existing)));
            let cw = words_of(trim(compact_restarted(current)));
            let ek = token_keys(ew);
            let ck = token_keys(cw);
            &&& ew.len() > 0
            &&& cw.len() > 0
            &&& forall|j: int| 0 < j <= ek.len() && j <= ck.len() ==> ek.subrange(ek.len() - j, ek.len() as int)
                != #[trigger] ck.subrange(0, j)
            &&& forall|j: int| 0 < j <= ek.len() && j <= ck.len() ==> ck.subrange(ck.len() - j, ck.len() as int)
                != #[trigger] ek.subrange(0, j)
            &&& !contains_run(ck, ek)
            &&& !contains_run(ek, ck)
            &&& common_prefix_len(ek, ck) < 4
        }),
    ensures
        words_of(merge_estimate(existing, current)) == words_of(trim(compact_restarted(existing))) + words_of(
            trim(compact_restarted(current)),
        ),
{
    let e = trim(compact_restarted(existing));
    let c = trim(compact_restarted(current));
    let ew = words_of(e);
    let cw = words_of(c);
    let ek = token_keys(ew);
    let ck = token_keys(cw);
    let empty: Seq<char> = Seq::empty();
    assert(words_of(empty) =~= Seq::<Seq<char>>::empty());
    if e.len() == 0 {
        assert(e =~= empty);
    }
    if c.len() == 0 {
        assert(c =~= empty);
    }
    let max_o = min_int(ek.len() as int, ck.len() as int);
    let min_o = if max_o <= 2 { 1int } else { 2int };
    crate::words::overlap_search_finds_none(ek, ck, min_o, max_o);
    crate::words::overlap_search_finds_none(ck, ek, min_o, max_o);
    crate::text::words_of_spaced(e, c);
}

} // verus!
