//! The input handed to the insight agent, its signature, which sources feed
//! it, and the retry back-off of its requests.
use vstd::prelude::*;

use crate::delta::new_text;
use crate::modes::SourceKind;
use crate::text::{chars_of, contains_char, string_of, trim, trim_vec};

verus! {

/// Characters of transcript context kept for the agent.
pub const AGENT_CONTEXT_CHARS: usize = 3500;

/// Base of the retry back-off, in seconds.
pub const AGENT_RETRY_BASE_SECONDS: u64 = 2;

/// Longest retry back-off, in seconds.
pub const AGENT_RETRY_MAX_SECONDS: u64 = 8;

/// The transcripts sent to the insight agent.
pub struct AgentInput {
    pub system_transcript: String,
    pub microphone_transcript: Option<String>,
    pub force: bool,
    pub generation: u64,
}

impl Clone for AgentInput {
    fn clone(&self) -> (r: Self)
        ensures
            r == *self,
    {
        AgentInput {
            system_transcript: self.system_transcript.clone(),
            microphone_transcript: match &self.microphone_transcript {
                Some(m) => Some(m.clone()),
                None => None,
            },
            force: self.force,
            generation: self.generation,
        }
    }
}

/// The microphone transcript's view, when there is one.
pub open spec fn opt_view(o: Option<String>) -> Option<Seq<char>> {
    match o {
        Some(s) => Some(s@),
        None => None,
    }
}

/// `system:<trimmed system transcript>\nmic:<trimmed microphone transcript>`.
pub open spec fn signature_spec(system: Seq<char>, microphone: Option<Seq<char>>) -> Seq<char> {
    "system:"@ + trim(system) + "\nmic:"@ + trim(
        match microphone {
            Some(m) => m,
            None => Seq::empty(),
        },
    )
}

/// A text that identifies an agent input by its two transcripts.
pub fn agent_input_signature(input: &AgentInput) -> (r: String)
    ensures
        r@ == signature_spec(input.system_transcript@, opt_view(input.microphone_transcript)),
{
    let mut out = chars_of("system:");
    let sys = chars_of(input.system_transcript.as_str());
    crate::text::append_chars(&mut out, &trim_vec(&sys));
    crate::text::append_chars(&mut out, &chars_of("\nmic:"));
    let mic = match &input.microphone_transcript {
        Some(m) => chars_of(m.as_str()),
        None => Vec::new(),
    };
    crate::text::append_chars(&mut out, &trim_vec(&mic));
    proof {
        assert(mic@ == match opt_view(input.microphone_transcript) {
            Some(m) => m,
            None => Seq::<char>::empty(),
        });
    }
    string_of(&out)
}

/// Whether a source's transcript feeds the agent: system output always, the
/// microphone only when it is shared.
pub open spec fn updates_agent(source: SourceKind, include_microphone: bool) -> bool {
    source == SourceKind::SystemOutput || (include_microphone && source == SourceKind::Microphone)
}

/// Whether a source's transcript feeds the agent; see `updates_agent`.
pub fn source_updates_agent(source: SourceKind, include_microphone: bool) -> (r: bool)
    ensures
        r == updates_agent(source, include_microphone),
{
    match source {
        SourceKind::SystemOutput => true,
        SourceKind::Microphone => include_microphone,
    }
}

/// `2^k`.
pub open spec fn doubling(k: nat) -> nat
    decreases k,
{
    if k == 0 {
        1
    } else {
        2 * doubling((k - 1) as nat)
    }
}

/// The wait before retry number `retry_number`, in seconds: the base doubled
/// for each earlier retry (at most eight times), capped at the maximum.
pub open spec fn retry_delay_spec(retry_number: nat) -> nat {
    let exponent: nat = if retry_number == 0 {
        0
    } else if retry_number - 1 > 8 {
        8
    } else {
        (retry_number - 1) as nat
    };
    let d: nat = (AGENT_RETRY_BASE_SECONDS * doubling(exponent)) as nat;
    if d < AGENT_RETRY_MAX_SECONDS {
        d
    } else {
        AGENT_RETRY_MAX_SECONDS as nat
    }
}

/// The back-off before a retry, in seconds; see `retry_delay_spec`.
pub fn agent_retry_delay(retry_number: u32) -> (r: u64)
    ensures
        r == retry_delay_spec(retry_number as nat),
        AGENT_RETRY_BASE_SECONDS <= r <= AGENT_RETRY_MAX_SECONDS,
{
    let exponent: u32 = if retry_number == 0 {
        0
    } else if retry_number - 1 > 8 {
        8
    } else {
        retry_number - 1
    };
    let mut multiplier: u64 = 1;
    let mut k: u32 = 0;
    while k < exponent
        invariant
            k <= exponent <= 8,
            multiplier == doubling(k as nat),
            multiplier <= 256,
        decreases exponent - k,
    {
        proof {
            reveal_with_fuel(doubling, 9);
            assert(doubling(k as nat) <= 128) by {
                reveal_with_fuel(doubling, 9);
            }
        }
        multiplier = multiplier * 2;
        k += 1;
    }
    proof {
        reveal_with_fuel(doubling, 9);
    }
    let d = AGENT_RETRY_BASE_SECONDS * multiplier;
    if d < AGENT_RETRY_MAX_SECONDS {
        d
    } else {
        AGENT_RETRY_MAX_SECONDS
    }
}

/// Whether what is new in the system transcript since the previous input
/// asks a question.
pub open spec fn system_question_spec(system: Seq<char>, previous_system: Option<Seq<char>>) -> bool {
    new_text(previous_system, system, AGENT_CONTEXT_CHARS as int).contains('?')
}

/// The previous input's system transcript, when there is a previous input.
pub open spec fn previous_system(previous: Option<&AgentInput>) -> Option<Seq<char>> {
    match previous {
        Some(p) => Some(p.system_transcript@),
        None => None,
    }
}

/// Whether the new system transcript text since the previous input holds a
/// question mark.
pub fn has_explicit_system_question_delta(input: &AgentInput, previous: Option<&AgentInput>) -> (r: bool)
    ensures
        r == system_question_spec(input.system_transcript@, previous_system(previous)),
{
    let prev = match previous {
        Some(p) => Some(p.system_transcript.as_str()),
        None => None,
    };
    let fresh = crate::delta::new_text_since(prev, input.system_transcript.as_str(), AGENT_CONTEXT_CHARS);
    let v = chars_of(fresh.as_str());
    contains_char(&v, '?')
}

} // verus!
