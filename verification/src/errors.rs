//! The error buffer of the live session: the last few distinct messages
//! with their repeat counts, and a count of the occurrences that scrolled
//! out.
use vstd::prelude::*;
use std::collections::VecDeque;

use crate::delta::compact_error_spec;
use crate::numbers::decimal;
use crate::text::{chars_of, string_of, trim};

verus! {

/// Distinct messages kept.
pub const ERROR_BUFFER_CAPACITY: usize = 6;

/// Longest kept message, in characters.
pub const ERROR_MESSAGE_CHARS: usize = 2000;

/// One kept error: when it last occurred (milliseconds into the session),
/// its message, and how often it occurred in a row.
pub struct AppErrorEntry {
    pub elapsed_ms: u64,
    pub message: String,
    pub repeat_count: u32,
}

/// The error buffer.
pub struct ErrorLog {
    pub entries: VecDeque<AppErrorEntry>,
    pub discarded_count: u64,
    pub revision: u64,
}

/// `a + b`, or `u64::MAX` when that overflows.
pub open spec fn sat_add(a: u64, b: u64) -> u64 {
    if a + b > u64::MAX { u64::MAX } else { (a + b) as u64 }
}

/// The occurrences the entries stand for, each entry at least once.
pub open spec fn occurrences(es: Seq<AppErrorEntry>) -> int
    decreases es.len(),
{
    if es.len() == 0 {
        0
    } else {
        occurrences(es.drop_last()) + (if es.last().repeat_count == 0 { 1 } else { es.last().repeat_count as int })
    }
}

proof fn lemma_occurrences_drop_first(es: Seq<AppErrorEntry>)
    requires
        es.len() > 0,
    ensures
        occurrences(es) == occurrences(es.drop_first()) + (if es[0].repeat_count == 0 { 1 } else { es[0].repeat_count as int }),
    decreases es.len(),
{
    if es.len() > 1 {
        lemma_occurrences_drop_first(es.drop_last());
        assert(es.drop_last().drop_first() =~= es.drop_first().drop_last());
        assert(es.drop_first().last() == es.last());
        assert(es.drop_last()[0] == es[0]);
    } else {
        assert(es.drop_first() =~= Seq::<AppErrorEntry>::empty());
        assert(es.drop_last() =~= Seq::<AppErrorEntry>::empty());
    }
}

proof fn lemma_occurrences_nonneg(es: Seq<AppErrorEntry>)
    ensures
        occurrences(es) >= 0,
    decreases es.len(),
{
    if es.len() > 0 {
        lemma_occurrences_nonneg(es.drop_last());
    }
}

/// Whether message `m` repeats the last kept entry.
pub open spec fn repeats_last(s: ErrorLog, m: Seq<char>) -> bool {
    s.entries@.len() > 0 && s.entries@.last().message@ == m
}

/// The occurrences an entry stands for: its count, and at least one.
pub open spec fn entry_count(e: AppErrorEntry) -> int {
    if e.repeat_count == 0 { 1 } else { e.repeat_count as int }
}

/// The effect of recording `message` at `elapsed_ms` on a buffer: a repeat
/// of the last message counts on that entry; another message is appended
/// with a count of one, the oldest entry scrolling out (its occurrences
/// counted as discarded) when the buffer is full; see `ErrorLog::record`.
pub open spec fn error_recorded(s: ErrorLog, n: ErrorLog, message: Seq<char>, elapsed_ms: u64) -> bool {
    let m = compact_error_spec(trim(message), ERROR_MESSAGE_CHARS as int);
    &&& n.wf()
    &&& (m.len() == 0 ==> n == s)
    &&& (m.len() > 0 ==> {
        &&& n.entries@.len() > 0
        &&& n.entries@.last().message@ == m
        &&& n.entries@.last().elapsed_ms == elapsed_ms
        &&& n.revision == (if s.revision == u64::MAX { 0 } else { (s.revision + 1) as u64 })
    })
    &&& (m.len() > 0 && repeats_last(s, m) ==> {
        &&& n.entries@.len() == s.entries@.len()
        &&& n.entries@.drop_last() == s.entries@.drop_last()
        &&& n.entries@.last().repeat_count == (if s.entries@.last().repeat_count == u32::MAX {
            u32::MAX
        } else {
            (s.entries@.last().repeat_count + 1) as u32
        })
        &&& n.discarded_count == s.discarded_count
    })
    &&& (m.len() > 0 && !repeats_last(s, m) ==> {
        let full = s.entries@.len() == ERROR_BUFFER_CAPACITY;
        let kept = if full { s.entries@.drop_first() } else { s.entries@ };
        &&& n.entries@.len() == kept.len() + 1
        &&& n.entries@.drop_last() == kept
        &&& n.entries@.last().repeat_count == 1
        &&& n.discarded_count == (if full { sat_add(s.discarded_count, entry_count(s.entries@[0]) as u64) } else { s.discarded_count })
    })
    &&& (m.len() > 0 && (s.entries@.len() == 0 || s.entries@.last().repeat_count < u32::MAX)
        && s.discarded_count as int + u32::MAX as int <= u64::MAX ==> n.total() == s.total() + 1)
}

impl ErrorLog {
    /// At most the capacity of entries, each counted at least once.
    pub open spec fn wf(&self) -> bool {
        &&& self.entries@.len() <= ERROR_BUFFER_CAPACITY
        &&& forall|i: int| 0 <= i < self.entries@.len() ==> (#[trigger] self.entries@[i]).repeat_count >= 1
    }

    /// Every occurrence recorded: those still shown and those scrolled out.
    pub open spec fn total(&self) -> int {
        occurrences(self.entries@) + self.discarded_count
    }

    /// An empty buffer.
    pub fn new() -> (r: Self)
        ensures
            r.wf(),
            r.entries@.len() == 0,
            r.discarded_count == 0,
            r.revision == 0,
    {
        ErrorLog { entries: VecDeque::new(), discarded_count: 0, revision: 0 }
    }

    /// Whether nothing was ever recorded or kept.
    pub fn is_empty(&self) -> (r: bool)
        ensures
            r == (self.entries@.len() == 0 && self.discarded_count == 0),
    {
        self.entries.len() == 0 && self.discarded_count == 0
    }

    /// Records an error `elapsed_ms` into the session. The message is
    /// compacted to 2000 characters; a blank one is ignored. A repeat of the
    /// last message counts on that entry; a new message is appended, the
    /// oldest entry scrolling out (and counted as discarded) when the buffer
    /// is full. Every recorded occurrence is counted exactly once.
    pub fn record(&mut self, message: &str, elapsed_ms: u64)
        requires
            old(self).wf(),
        ensures
            error_recorded(*old(self), *final(self), message@, elapsed_ms),
    {
        let trimmed = crate::text::trim_string(message);
        let compact = crate::delta::compact_error(trimmed.as_str(), ERROR_MESSAGE_CHARS);
        if crate::text::chars_of(compact.as_str()).len() == 0 {
            return;
        }
        let next_revision = if self.revision == u64::MAX {
            0
        } else {
            self.revision + 1
        };
        let n = self.entries.len();
        if n > 0 {
            let ghost before = self.entries@;
            let last = self.entries.pop_back();
            match last {
                Some(entry) => {
                    if crate::text::chars_equal(&chars_of(entry.message.as_str()), &chars_of(compact.as_str())) {
                        let repeat_count = if entry.repeat_count == u32::MAX {
                            u32::MAX
                        } else {
                            entry.repeat_count + 1
                        };
                        let ghost old_entry = entry;
                        self.entries.push_back(AppErrorEntry { elapsed_ms, message: entry.message, repeat_count });
                        self.revision = next_revision;
                        proof {
                            assert(self.entries@.drop_last() =~= before.drop_last());
                            assert(before.last() == old_entry);
                            assert(forall|i: int| 0 <= i < self.entries@.len() - 1 ==> self.entries@[i] == before[i]);
                        }
                        return;
                    }
                    self.entries.push_back(entry);
                    assert(self.entries@ =~= before);
                },
                None => {},
            }
        }
        if self.entries.len() == ERROR_BUFFER_CAPACITY {
            let ghost before = self.entries@;
            let first = self.entries.pop_front();
            match first {
                Some(discarded) => {
                    let count: u64 = if discarded.repeat_count == 0 {
                        1
                    } else {
                        discarded.repeat_count as u64
                    };
                    self.discarded_count = if self.discarded_count > u64::MAX - count {
                        u64::MAX
                    } else {
                        self.discarded_count + count
                    };
                    proof {
                        lemma_occurrences_drop_first(before);
                        assert(self.entries@ =~= before.drop_first());
                    }
                },
                None => {},
            }
        }
        let ghost before = self.entries@;
        self.entries.push_back(AppErrorEntry { elapsed_ms, message: compact, repeat_count: 1 });
        self.revision = next_revision;
        proof {
            assert(self.entries@.drop_last() =~= before);
        }
    }
}

/// `n` as at least two digits, zero-padded.
pub open spec fn two_digits(n: nat) -> Seq<char> {
    if n < 10 { seq!['0'] + decimal(n) } else { decimal(n) }
}

/// An error as the pane lists it: `  [+MM:SS] message`, and ` (xN)` for a
/// repeated one.
pub open spec fn error_entry_text(e: AppErrorEntry) -> Seq<char> {
    let total = e.elapsed_ms as nat / 1000;
    "  [+"@ + two_digits(total / 60) + seq![':'] + two_digits(total % 60) + "] "@ + e.message@ + (if e.repeat_count > 1 {
        " (x"@ + decimal(e.repeat_count as nat) + ")"@
    } else {
        Seq::empty()
    })
}

fn push_two_digits(out: &mut Vec<char>, n: u64)
    ensures
        final(out)@ == old(out)@ + two_digits(n as nat),
{
    if n < 10 {
        out.push('0');
    }
    let d = crate::numbers::decimal_chars(n);
    crate::text::append_chars(out, &d);
    proof {
        if n < 10 {
            assert(final(out)@ =~= old(out)@ + (seq!['0'] + decimal(n as nat)));
        }
    }
}

/// Formats an error for the pane; see `error_entry_text`.
pub fn format_error_entry(error: &AppErrorEntry) -> (r: String)
    ensures
        r@ == error_entry_text(*error),
{
    let total = error.elapsed_ms / 1000;
    let mut out = chars_of("  [+");
    push_two_digits(&mut out, total / 60);
    out.push(':');
    push_two_digits(&mut out, total % 60);
    crate::numbers::push_str_chars(&mut out, "] ");
    crate::text::append_chars(&mut out, &chars_of(error.message.as_str()));
    if error.repeat_count > 1 {
        crate::numbers::push_str_chars(&mut out, " (x");
        crate::text::append_chars(&mut out, &crate::numbers::decimal_chars(error.repeat_count as u64));
        crate::numbers::push_str_chars(&mut out, ")");
    }
    string_of(&out)
}

} // verus!
