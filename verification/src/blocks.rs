//! Transcript blocks of one audio source, and the ages of their words.
use vstd::prelude::*;
use crate::text::{
    chars_of, compare_tokens, copy_chars, is_blank, seqs, split_words, string_of, token_keys,
    trim, trim_vec, words_of, append_chars,
};
use crate::words::{common_prefix_len, lemma_common_prefix_bounds, lemma_common_prefix_unique, shared_prefix_len};

verus! {

/// One word of a transcript block, with the time (milliseconds on the
/// caller's monotonic clock) at which it was first seen.
pub struct TranscriptWord {
    pub text: String,
    pub first_seen: u64,
}

/// Text of a list of transcript words.
pub open spec fn word_texts(ws: Seq<TranscriptWord>) -> Seq<Seq<char>> {
    ws.map_values(|w: TranscriptWord| w.text@)
}

/// Length of the common suffix of `a[p..]` and `b[p..]`.
pub open spec fn tail_match_len<A>(a: Seq<A>, b: Seq<A>, p: int) -> nat {
    common_prefix_len(a.skip(p).reverse(), b.skip(p).reverse())
}

/// The time a word at index `i` of the next hypothesis keeps: words of the
/// common key prefix keep their old time, words of the common key suffix
/// (after that prefix) keep the time of the word they correspond to, and the
/// others are new.
pub open spec fn aligned_time(existing: Seq<TranscriptWord>, next: Seq<Seq<char>>, now: u64, i: int) -> u64 {
    let ek = token_keys(word_texts(existing));
    let nk = token_keys(next);
    let prefix = common_prefix_len(ek, nk) as int;
    let suffix = tail_match_len(ek, nk, prefix) as int;
    if existing.len() == 0 {
        now
    } else if i < prefix {
        existing[i].first_seen
    } else if suffix > 0 && i >= next.len() - suffix {
        existing[existing.len() - (next.len() - i)].first_seen
    } else {
        now
    }
}

/// Reassigns word ages after a transcript text changed: the result has one
/// word per whitespace-separated word of `next_text`, and each keeps the time
/// `aligned_time` gives it.
pub fn align_transcript_words(existing: &Vec<TranscriptWord>, next_text: &str, now: u64) -> (r: Vec<TranscriptWord>)
    ensures
        r.len() == words_of(next_text@).len(),
        forall|i: int| 0 <= i < r.len() ==> #[trigger] r@[i].text@ == words_of(next_text@)[i],
        forall|i: int| 0 <= i < r.len() ==> #[trigger] r@[i].first_seen == aligned_time(existing@, words_of(next_text@), now, i),
{
    let next_words = split_str_words_local(next_text);
    let ghost nw = seqs(next_words@);
    let mut out: Vec<TranscriptWord> = Vec::new();
    if next_words.len() == 0 {
        return out;
    }
    if existing.len() == 0 {
        let mut i: usize = 0;
        while i < next_words.len()
            invariant
                i <= next_words.len(),
                nw == seqs(next_words@),
                existing.len() == 0,
                out.len() == i,
                forall|j: int| 0 <= j < i ==> #[trigger] out@[j].text@ == nw[j],
                forall|j: int| 0 <= j < i ==> #[trigger] out@[j].first_seen == now,
            decreases next_words.len() - i,
        {
            out.push(TranscriptWord { text: string_of(&next_words[i]), first_seen: now });
            i += 1;
        }
        return out;
    }
    let mut existing_texts: Vec<Vec<char>> = Vec::new();
    let mut k: usize = 0;
    while k < existing.len()
        invariant
            k <= existing.len(),
            seqs(existing_texts@) == word_texts(existing@).take(k as int),
        decreases existing.len() - k,
    {
        let t = chars_of(existing[k].text.as_str());
        let ghost before = seqs(existing_texts@);
        existing_texts.push(t);
        assert(seqs(existing_texts@) =~= before.push(existing@[k as int].text@));
        k += 1;
        assert(word_texts(existing@).take(k as int) =~= word_texts(existing@).take(k - 1).push(existing@[k - 1].text@));
    }
    assert(word_texts(existing@).take(existing.len() as int) =~= word_texts(existing@));
    let existing_keys = compare_tokens(&existing_texts);
    let next_keys = compare_tokens(&next_words);
    let ghost ek = seqs(existing_keys@);
    let ghost nk = seqs(next_keys@);
    let prefix = shared_prefix_len(&existing_keys, &next_keys);
    proof {
        lemma_common_prefix_bounds(ek, nk);
    }
    let mut suffix: usize = 0;
    while suffix < existing_keys.len() - prefix && suffix < next_keys.len() - prefix
        && crate::text::chars_equal(&existing_keys[existing_keys.len() - 1 - suffix], &next_keys[next_keys.len() - 1 - suffix])
        invariant
            prefix <= existing_keys.len(),
            prefix <= next_keys.len(),
            ek == seqs(existing_keys@),
            nk == seqs(next_keys@),
            suffix <= existing_keys.len() - prefix,
            suffix <= next_keys.len() - prefix,
            forall|j: int| 0 <= j < suffix ==> #[trigger] ek.skip(prefix as int).reverse()[j] == nk.skip(prefix as int).reverse()[j],
        decreases existing_keys.len() - suffix,
    {
        assert(ek.skip(prefix as int).reverse()[suffix as int] == ek[ek.len() - 1 - suffix]);
        assert(nk.skip(prefix as int).reverse()[suffix as int] == nk[nk.len() - 1 - suffix]);
        suffix += 1;
    }
    proof {
        let a = ek.skip(prefix as int).reverse();
        let b = nk.skip(prefix as int).reverse();
        if suffix < a.len() && suffix < b.len() {
            assert(a[suffix as int] == ek[ek.len() - 1 - suffix]);
            assert(b[suffix as int] == nk[nk.len() - 1 - suffix]);
        }
        lemma_common_prefix_unique(a, b, suffix as int);
    }
    let n = next_words.len();
    let mut i: usize = 0;
    while i < n
        invariant
            n == next_words.len(),
            nw == seqs(next_words@),
            existing.len() > 0,
            ek == token_keys(word_texts(existing@)),
            nk == token_keys(nw),
            prefix == common_prefix_len(ek, nk),
            suffix == tail_match_len(ek, nk, prefix as int),
            prefix <= ek.len(),
            ek.len() == existing.len(),
            nk.len() == n,
            prefix + suffix <= existing.len(),
            prefix + suffix <= n,
            i <= n,
            out.len() == i,
            forall|j: int| 0 <= j < i ==> #[trigger] out@[j].text@ == nw[j],
            forall|j: int| 0 <= j < i ==> #[trigger] out@[j].first_seen == aligned_time(existing@, nw, now, j),
        decreases n - i,
    {
        let first_seen = if i < prefix {
            existing[i].first_seen
        } else if suffix > 0 && i >= n - suffix {
            existing[existing.len() - (n - i)].first_seen
        } else {
            now
        };
        out.push(TranscriptWord { text: string_of(&next_words[i]), first_seen });
        i += 1;
    }
    out
}

fn split_str_words_local(s: &str) -> (r: Vec<Vec<char>>)
    ensures
        seqs(r@) == words_of(s@),
{
    crate::text::split_str_words(s)
}

/// One block of transcript text, separated from the next by a pause.
pub struct TranscriptBlock {
    pub text: String,
    pub words: Vec<TranscriptWord>,
}

impl TranscriptBlock {
    /// An empty block.
    pub fn new() -> (r: TranscriptBlock)
        ensures
            r.text@.len() == 0,
            r.words.len() == 0,
    {
        TranscriptBlock { text: String::new(), words: Vec::new() }
    }
}

/// Block texts, trimmed, without the empty ones, joined by a blank line.
pub open spec fn joined_blocks(ts: Seq<Seq<char>>) -> Seq<char>
    decreases ts.len(),
{
    if ts.len() == 0 {
        Seq::empty()
    } else {
        let rest = joined_blocks(ts.drop_last());
        let t = trim(ts.last());
        if t.len() == 0 {
            rest
        } else if rest.len() == 0 {
            t
        } else {
            rest + seq!['\n', '\n'] + t
        }
    }
}

/// The texts of a list of blocks.
pub open spec fn block_texts(bs: Seq<TranscriptBlock>) -> Seq<Seq<char>> {
    bs.map_values(|b: TranscriptBlock| b.text@)
}

/// Whether some block has non-blank text.
pub open spec fn any_content(ts: Seq<Seq<char>>) -> bool {
    exists|i: int| 0 <= i < ts.len() && #[trigger] trim(ts[i]).len() > 0
}

/// The transcript of one audio source, as a list of blocks.
pub struct TranscriptState {
    pub blocks: Vec<TranscriptBlock>,
}

impl TranscriptState {
    /// A transcript with no blocks.
    pub fn new() -> (r: TranscriptState)
        ensures
            r.blocks.len() == 0,
    {
        TranscriptState { blocks: Vec::new() }
    }

    /// The block being written: the last one, created empty when there is
    /// none.
    pub fn current_block_mut(&mut self) -> (r: &mut TranscriptBlock)
        ensures
            old(self).blocks.len() > 0 ==> final(self).blocks.len() == old(self).blocks.len(),
            old(self).blocks.len() > 0 ==> *r == old(self).blocks@.last(),
            old(self).blocks.len() == 0 ==> final(self).blocks.len() == 1,
            old(self).blocks.len() == 0 ==> (r.text@.len() == 0 && r.words.len() == 0),
            forall|i: int| 0 <= i < final(self).blocks.len() - 1 ==> #[trigger] final(self).blocks@[i] == old(self).blocks@[i],
            final(self).blocks@.last() == *final(r),
    {
        if self.blocks.len() == 0 {
            self.blocks.push(TranscriptBlock::new());
        }
        let last = self.blocks.len() - 1;
        &mut self.blocks[last]
    }

    /// Whether some block holds non-blank text.
    pub fn has_content(&self) -> (r: bool)
        ensures
            r == any_content(block_texts(self.blocks@)),
    {
        let mut i: usize = 0;
        while i < self.blocks.len()
            invariant
                i <= self.blocks.len(),
                forall|j: int| 0 <= j < i ==> trim(#[trigger] block_texts(self.blocks@)[j]).len() == 0,
            decreases self.blocks.len() - i,
        {
            let t = chars_of(self.blocks[i].text.as_str());
            if !is_blank(&t) {
                assert(trim(block_texts(self.blocks@)[i as int]).len() > 0);
                return true;
            }
            i += 1;
        }
        false
    }

    /// Starts a new block after a pause. Nothing changes when the transcript
    /// has no content or its last block is still blank.
    pub fn add_break(&mut self) -> (r: bool)
        ensures
            r == (any_content(block_texts(old(self).blocks@)) && trim(old(self).blocks@.last().text@).len() > 0),
            r ==> final(self).blocks@ == old(self).blocks@.push(final(self).blocks@.last()),
            r ==> final(self).blocks@.last().text@.len() == 0 && final(self).blocks@.last().words.len() == 0,
            !r ==> final(self).blocks@ == old(self).blocks@,
    {
        if !self.has_content() {
            return false;
        }
        let n = self.blocks.len();
        let last_text = chars_of(self.blocks[n - 1].text.as_str());
        if is_blank(&last_text) {
            return false;
        }
        self.blocks.push(TranscriptBlock::new());
        true
    }

    /// All block texts, trimmed, without blank ones, separated by a blank
    /// line.
    pub fn text(&self) -> (r: String)
        ensures
            r@ == joined_blocks(block_texts(self.blocks@)),
    {
        let mut out: Vec<char> = Vec::new();
        let mut i: usize = 0;
        while i < self.blocks.len()
            invariant
                i <= self.blocks.len(),
                out@ == joined_blocks(block_texts(self.blocks@).take(i as int)),
            decreases self.blocks.len() - i,
        {
            let t = chars_of(self.blocks[i].text.as_str());
            let trimmed = trim_vec(&t);
            let ghost prev = out@;
            if trimmed.len() > 0 {
                if out.len() > 0 {
                    out.push('\n');
                    out.push('\n');
                }
                append_chars(&mut out, &trimmed);
            }
            i += 1;
            proof {
                let ts = block_texts(self.blocks@).take(i as int);
                assert(ts.drop_last() =~= block_texts(self.blocks@).take(i - 1));
                if trimmed.len() > 0 && prev.len() > 0 {
                    assert(out@ =~= prev + seq!['\n', '\n'] + trimmed@);
                }
            }
        }
        assert(block_texts(self.blocks@).take(self.blocks.len() as int) =~= block_texts(self.blocks@));
        string_of(&out)
    }
}

} // verus!
