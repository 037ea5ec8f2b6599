//! The choice lists of the settings screens and how a setting steps through
//! them.
use vstd::prelude::*;

use crate::modes::{cycle_index, cycled, SourceKind, TypingSettingDirection};
use crate::normalize::eq_ignore_ascii_case;
use crate::text::{chars_of, lower_seq, seqs, string_of, trim, trim_vec};

verus! {

/// Position of the first element equal to `x`, or -1.
pub open spec fn index_of<A>(s: Seq<A>, x: A) -> int
    decreases s.len(),
{
    if s.len() == 0 {
        -1
    } else if s[0] == x {
        0
    } else {
        let r = index_of(s.drop_first(), x);
        if r < 0 { -1 } else { r + 1 }
    }
}

/// Position of the first text equal to `x` ignoring ASCII case, or -1.
pub open spec fn index_ci(s: Seq<Seq<char>>, x: Seq<char>) -> int
    decreases s.len(),
{
    if s.len() == 0 {
        -1
    } else if lower_seq(s[0]) == lower_seq(x) {
        0
    } else {
        let r = index_ci(s.drop_first(), x);
        if r < 0 { -1 } else { r + 1 }
    }
}

pub proof fn lemma_index_of<A>(s: Seq<A>, x: A, i: int)
    requires
        0 <= i <= s.len(),
        forall|j: int| 0 <= j < i ==> #[trigger] s[j] != x,
    ensures
        i < s.len() && s[i] == x ==> index_of(s, x) == i,
        i == s.len() ==> index_of(s, x) == -1,
    decreases i,
{
    if i > 0 {
        lemma_index_of(s.drop_first(), x, i - 1);
    }
}

pub proof fn lemma_index_ci(s: Seq<Seq<char>>, x: Seq<char>, i: int)
    requires
        0 <= i <= s.len(),
        forall|j: int| 0 <= j < i ==> lower_seq(#[trigger] s[j]) != lower_seq(x),
    ensures
        i < s.len() && lower_seq(s[i]) == lower_seq(x) ==> index_ci(s, x) == i,
        i == s.len() ==> index_ci(s, x) == -1,
    decreases i,
{
    if i > 0 {
        lemma_index_ci(s.drop_first(), x, i - 1);
    }
}

pub proof fn lemma_index_of_range<A>(s: Seq<A>, x: A)
    ensures
        -1 <= index_of(s, x) < s.len(),
    decreases s.len(),
{
    if s.len() > 0 {
        lemma_index_of_range(s.drop_first(), x);
    }
}

pub proof fn lemma_index_ci_range(s: Seq<Seq<char>>, x: Seq<char>)
    ensures
        -1 <= index_ci(s, x) < s.len(),
    decreases s.len(),
{
    if s.len() > 0 {
        lemma_index_ci_range(s.drop_first(), x);
    }
}

/// Transcription windows offered, in seconds.
pub open spec fn window_choices() -> Seq<usize> {
    seq![6usize, 8, 10, 12, 15, 20, 30]
}

/// Hidden pause delays offered, in seconds (0: never).
pub open spec fn hidden_pause_choices() -> Seq<u64> {
    seq![0u64, 5, 10, 15, 30, 60]
}

/// Hidden exit delays offered, in minutes (0: never).
pub open spec fn hidden_exit_choices() -> Seq<u64> {
    seq![0u64, 5, 10, 15, 30, 60]
}

/// Idle exit delays offered, in minutes (0: never).
pub open spec fn idle_exit_choices() -> Seq<u64> {
    seq![0u64, 15, 30, 60, 120, 240]
}

/// Session limits offered, in minutes (0: none).
pub open spec fn session_choices() -> Seq<u64> {
    seq![0u64, 60, 120, 240, 480, 720]
}

/// Agent token budgets offered (0: none).
pub open spec fn token_budget_choices() -> Seq<u64> {
    seq![0u64, 25_000, 50_000, 100_000, 250_000, 500_000]
}

/// Transcription languages offered.
pub open spec fn language_choices() -> Seq<Seq<char>> {
    seq!["auto"@, "en"@, "es"@, "pt"@, "fr"@, "de"@, "it"@]
}

/// Refiner and agent models offered.
pub open spec fn model_id_choices() -> Seq<Seq<char>> {
    seq!["gpt-5.6-sol"@, "gpt-5.6-terra"@, "gpt-5.6-luna"@]
}

pub fn transcription_window_choices() -> (r: Vec<usize>)
    ensures
        r@ == window_choices(),
{
    let r = vec![6usize, 8, 10, 12, 15, 20, 30];
    assert(r@ =~= window_choices());
    r
}

pub fn hidden_pause_second_choices() -> (r: Vec<u64>)
    ensures
        r@ == hidden_pause_choices(),
{
    let r = vec![0u64, 5, 10, 15, 30, 60];
    assert(r@ =~= hidden_pause_choices());
    r
}

pub fn hidden_exit_minute_choices() -> (r: Vec<u64>)
    ensures
        r@ == hidden_exit_choices(),
{
    let r = vec![0u64, 5, 10, 15, 30, 60];
    assert(r@ =~= hidden_exit_choices());
    r
}

pub fn idle_exit_minute_choices() -> (r: Vec<u64>)
    ensures
        r@ == idle_exit_choices(),
{
    let r = vec![0u64, 15, 30, 60, 120, 240];
    assert(r@ =~= idle_exit_choices());
    r
}

pub fn session_minute_choices() -> (r: Vec<u64>)
    ensures
        r@ == session_choices(),
{
    let r = vec![0u64, 60, 120, 240, 480, 720];
    assert(r@ =~= session_choices());
    r
}

pub fn agent_token_budget_choices() -> (r: Vec<u64>)
    ensures
        r@ == token_budget_choices(),
{
    let r = vec![0u64, 25_000, 50_000, 100_000, 250_000, 500_000];
    assert(r@ =~= token_budget_choices());
    r
}

pub fn transcription_language_choices() -> (r: Vec<Vec<char>>)
    ensures
        seqs(r@) == language_choices(),
        r.len() == 7,
{
    let r = vec![
        chars_of("auto"),
        chars_of("en"),
        chars_of("es"),
        chars_of("pt"),
        chars_of("fr"),
        chars_of("de"),
        chars_of("it"),
    ];
    assert(seqs(r@) =~= language_choices());
    r
}

pub fn model_id_choice_list() -> (r: Vec<Vec<char>>)
    ensures
        seqs(r@) == model_id_choices(),
        r.len() == 3,
{
    let r = vec![chars_of("gpt-5.6-sol"), chars_of("gpt-5.6-terra"), chars_of("gpt-5.6-luna")];
    assert(seqs(r@) =~= model_id_choices());
    r
}

/// The next text choice: after the current one (found by its trimmed text,
/// ignoring ASCII case), or the last (backward) or first (forward) when it
/// is not offered.
pub open spec fn cycle_str_spec(current: Seq<char>, choices: Seq<Seq<char>>, direction: TypingSettingDirection) -> Seq<char> {
    let idx = index_ci(choices, trim(current));
    let next = if idx < 0 {
        match direction {
            TypingSettingDirection::Previous => choices.len() - 1,
            TypingSettingDirection::Next => 0,
        }
    } else {
        cycled(idx, choices.len() as int, direction)
    };
    choices[next]
}

/// Steps a text setting through its choices; see `cycle_str_spec`.
pub fn cycle_str_choice(current: &str, choices: &Vec<Vec<char>>, direction: TypingSettingDirection) -> (r: String)
    requires
        choices.len() > 0,
    ensures
        r@ == cycle_str_spec(current@, seqs(choices@), direction),
{
    let t = trim_vec(&chars_of(current));
    let ghost cs = seqs(choices@);
    let mut i: usize = 0;
    while i < choices.len() && !eq_ignore_ascii_case(&choices[i], &t)
        invariant
            i <= choices.len(),
            cs == seqs(choices@),
            t@ == trim(current@),
            forall|j: int| 0 <= j < i ==> lower_seq(#[trigger] cs[j]) != lower_seq(t@),
        decreases choices.len() - i,
    {
        assert(cs[i as int] == choices@[i as int]@);
        i += 1;
    }
    if i < choices.len() {
        assert(cs[i as int] == choices@[i as int]@);
    }
    proof {
        lemma_index_ci(cs, t@, i as int);
    }
    let next = if i == choices.len() {
        match direction {
            TypingSettingDirection::Previous => choices.len() - 1,
            TypingSettingDirection::Next => 0,
        }
    } else {
        cycle_index(i, choices.len(), direction)
    };
    string_of(&choices[next])
}

/// The next number choice: after the current one, or after the first when
/// it is not offered.
pub open spec fn cycle_num_spec<A>(current: A, choices: Seq<A>, direction: TypingSettingDirection) -> A {
    let idx = index_of(choices, current);
    choices[cycled(if idx < 0 { 0 } else { idx }, choices.len() as int, direction)]
}

/// Steps a window length through its choices; see `cycle_num_spec`.
pub fn cycle_usize_choice(current: usize, choices: &Vec<usize>, direction: TypingSettingDirection) -> (r: usize)
    requires
        choices.len() > 0,
    ensures
        r == cycle_num_spec(current, choices@, direction),
{
    let mut i: usize = 0;
    while i < choices.len() && choices[i] != current
        invariant
            i <= choices.len(),
            forall|j: int| 0 <= j < i ==> #[trigger] choices@[j] != current,
        decreases choices.len() - i,
    {
        i += 1;
    }
    proof {
        lemma_index_of(choices@, current, i as int);
    }
    let idx = if i == choices.len() {
        0
    } else {
        i
    };
    choices[cycle_index(idx, choices.len(), direction)]
}

/// Steps a duration or budget through its choices; see `cycle_num_spec`.
pub fn cycle_u64_choice(current: u64, choices: &Vec<u64>, direction: TypingSettingDirection) -> (r: u64)
    requires
        choices.len() > 0,
    ensures
        r == cycle_num_spec(current, choices@, direction),
{
    let mut i: usize = 0;
    while i < choices.len() && choices[i] != current
        invariant
            i <= choices.len(),
            forall|j: int| 0 <= j < i ==> #[trigger] choices@[j] != current,
        decreases choices.len() - i,
    {
        i += 1;
    }
    proof {
        lemma_index_of(choices@, current, i as int);
    }
    let idx = if i == choices.len() {
        0
    } else {
        i
    };
    choices[cycle_index(idx, choices.len(), direction)]
}

/// The next reference document: the choices are "none" and then the files;
/// the current one is found ignoring ASCII case.
pub open spec fn cycle_context_spec(current: Option<Seq<char>>, files: Seq<Seq<char>>, direction: TypingSettingDirection) -> Option<Seq<char>> {
    let idx = match current {
        Some(c) => {
            let i = index_ci(files, c);
            if i < 0 { 0 } else { i + 1 }
        },
        None => 0,
    };
    let next = cycled(idx, files.len() + 1int, direction);
    if next > 0 {
        Some(files[next - 1])
    } else {
        None
    }
}

/// Steps the reference document through none and the files; see
/// `cycle_context_spec`.
pub fn cycle_context_file(current: Option<&str>, files: &Vec<String>, direction: TypingSettingDirection) -> (r: Option<String>)
    ensures
        match r {
            Some(f) => cycle_context_spec(match current { Some(c) => Some(c@), None => None }, crate::layout::string_seqs(files@), direction) == Some(f@),
            None => cycle_context_spec(match current { Some(c) => Some(c@), None => None }, crate::layout::string_seqs(files@), direction) is None,
        },
{
    let ghost fs = crate::layout::string_seqs(files@);
    let idx: usize = match current {
        Some(c) => {
            let cv = chars_of(c);
            let mut i: usize = 0;
            while i < files.len() && !eq_ignore_ascii_case(&chars_of(files[i].as_str()), &cv)
                invariant
                    i <= files.len(),
                    fs == crate::layout::string_seqs(files@),
                    cv@ == c@,
                    forall|j: int| 0 <= j < i ==> lower_seq(#[trigger] fs[j]) != lower_seq(c@),
                decreases files.len() - i,
            {
                assert(fs[i as int] == files@[i as int]@);
                i += 1;
            }
            if i < files.len() {
                assert(fs[i as int] == files@[i as int]@);
            }
            proof {
                lemma_index_ci(fs, c@, i as int);
            }
            if i == files.len() {
                0
            } else {
                i + 1
            }
        },
        None => 0,
    };
    let last = files.len();
    let next: usize = match direction {
        TypingSettingDirection::Previous => if idx == 0 {
            last
        } else {
            idx - 1
        },
        TypingSettingDirection::Next => if idx >= last {
            0
        } else {
            idx + 1
        },
    };
    if next > 0 {
        Some(files[next - 1].clone())
    } else {
        None
    }
}

/// Source sets in the order the setting offers them: both, microphone,
/// system output.
pub open spec fn source_choice(i: int) -> Seq<SourceKind> {
    if i == 0 {
        seq![SourceKind::Microphone, SourceKind::SystemOutput]
    } else if i == 1 {
        seq![SourceKind::Microphone]
    } else {
        seq![SourceKind::SystemOutput]
    }
}

/// The next source set; an unknown set counts as both sources.
pub open spec fn cycle_sources_spec(current: Seq<SourceKind>, direction: TypingSettingDirection) -> Seq<SourceKind> {
    let idx = if current == seq![SourceKind::Microphone, SourceKind::SystemOutput] || current == seq![
        SourceKind::SystemOutput,
        SourceKind::Microphone,
    ] {
        0
    } else if current == seq![SourceKind::Microphone] {
        1
    } else if current == seq![SourceKind::SystemOutput] {
        2
    } else {
        0
    };
    source_choice(cycled(idx, 3, direction))
}

/// Steps the captured sources; see `cycle_sources_spec`.
pub fn cycle_transcription_sources(current: &Vec<SourceKind>, direction: TypingSettingDirection) -> (r: Vec<SourceKind>)
    ensures
        r@ == cycle_sources_spec(current@, direction),
{
    let idx: usize = if current.len() == 2 && ((current[0] == SourceKind::Microphone && current[1] == SourceKind::SystemOutput)
        || (current[0] == SourceKind::SystemOutput && current[1] == SourceKind::Microphone)) {
        0
    } else if current.len() == 1 && current[0] == SourceKind::Microphone {
        1
    } else if current.len() == 1 && current[0] == SourceKind::SystemOutput {
        2
    } else {
        0
    };
    proof {
        let mic_sys = seq![SourceKind::Microphone, SourceKind::SystemOutput];
        let sys_mic = seq![SourceKind::SystemOutput, SourceKind::Microphone];
        if idx == 0 {
            if current@.len() == 2 && current@[0] == SourceKind::Microphone && current@[1] == SourceKind::SystemOutput {
                assert(current@ =~= mic_sys);
            } else if current@.len() == 2 && current@[0] == SourceKind::SystemOutput && current@[1] == SourceKind::Microphone {
                assert(current@ =~= sys_mic);
            } else {
                assert(current@ != mic_sys);
                assert(current@ != sys_mic);
                assert(current@ != seq![SourceKind::Microphone]);
                assert(current@ != seq![SourceKind::SystemOutput]);
            }
        } else if idx == 1 {
            assert(current@ =~= seq![SourceKind::Microphone]);
        } else {
            assert(current@ =~= seq![SourceKind::SystemOutput]);
        }
    }
    let next = cycle_index(idx, 3, direction);
    let r = if next == 0 {
        vec![SourceKind::Microphone, SourceKind::SystemOutput]
    } else if next == 1 {
        vec![SourceKind::Microphone]
    } else {
        vec![SourceKind::SystemOutput]
    };
    assert(r@ =~= source_choice(next as int));
    r
}

} // verus!
