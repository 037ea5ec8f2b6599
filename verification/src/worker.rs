//! The decisions of the insight worker: which transcript input to send,
//! when, how a failure is retried, and what a refresh forgets. The worker's
//! loop receives inputs, calls the API and reports to the screen; each step
//! of it asks this state what to do and tells it what came back.
use vstd::prelude::*;

use crate::agent::{opt_view, previous_system, signature_spec, system_question_spec, AgentInput, retry_delay_spec};
use crate::agent_config::{fields_view, AgentFieldConfig};
use crate::delta::compact_error_spec;
use crate::insight::{canonical_spec, informative_delta_spec, previous_view};
use crate::json::JsonValue;
use crate::numbers::decimal;
use crate::text::trim;

verus! {

/// Least time between two requests for new context, in milliseconds.
pub const AGENT_REFRESH_INTERVAL_MS: u64 = 6000;

/// Retries of a failed request before it is given up.
pub const AGENT_RETRY_LIMIT: u32 = 3;

/// Whether a failed request's HTTP status is worth retrying: a timeout, a
/// conflict, too many requests, or a server error.
pub fn retryable_status(status: u16) -> (r: bool)
    ensures
        r == (status == 408 || status == 409 || status == 429 || (500 <= status && status <= 599)),
{
    status == 408 || status == 409 || status == 429 || (500 <= status && status <= 599)
}

/// What the worker remembers between requests.
pub struct AgentWorkerState {
    pub latest_input: Option<AgentInput>,
    pub last_submitted: String,
    pub last_result: JsonValue,
    pub last_successful_input: Option<AgentInput>,
    /// When the last request ended; `None` when there was none yet.
    pub last_request_ms: Option<u64>,
    pub retry_signature: Option<String>,
    pub retry_count: u32,
    pub retry_not_before_ms: Option<u64>,
    pub received_successful_response: bool,
    pub seen_refresh_generation: u64,
    pub was_allowed: bool,
}

/// How the permission to send requests changed.
#[derive(Clone, Copy, Debug, PartialEq, Eq, Structural)]
pub enum PermissionChange {
    Unchanged,
    /// Requests stopped being allowed: the screen says the worker pauses.
    Paused,
    /// Requests are allowed again: the screen says the worker resumes.
    Resumed,
}

/// What to do with the latest input.
pub enum RequestPlan {
    /// Nothing to send now.
    Wait,
    /// Send the latest input; `force_hints` asks the screen to show the
    /// answer's hints at once.
    Send { signature: String, force: bool, force_hints: bool },
}

/// What the screen is told of a failed request.
pub enum FailureReport {
    /// The request will be sent again after `delay_secs`.
    Retrying { message: String, delay_secs: u64 },
    /// The request is given up.
    Failed { message: String },
}

/// Milliseconds since `then`, or `None` when there was no such time.
pub open spec fn since(now_ms: u64, then: Option<u64>) -> Option<int> {
    match then {
        Some(t) => Some(if now_ms >= t { now_ms - t } else { 0 }),
        None => None,
    }
}

/// The signature of an input.
pub open spec fn input_signature(i: AgentInput) -> Seq<char> {
    signature_spec(i.system_transcript@, opt_view(i.microphone_transcript))
}

/// Whether the last request ended less than the refresh interval ago.
pub open spec fn too_soon(w: AgentWorkerState, now_ms: u64) -> bool {
    match since(now_ms, w.last_request_ms) {
        Some(e) => e < AGENT_REFRESH_INTERVAL_MS,
        None => false,
    }
}

/// The retry bookkeeping cleared.
pub open spec fn retry_cleared(w: AgentWorkerState) -> AgentWorkerState {
    AgentWorkerState { retry_signature: None, retry_count: 0, retry_not_before_ms: None, ..w }
}

/// The retries of a request stay within the limit, and are counted only
/// for a request being retried.
pub open spec fn worker_wf(w: AgentWorkerState) -> bool {
    &&& w.retry_count <= AGENT_RETRY_LIMIT
    &&& w.retry_signature is None ==> w.retry_count == 0
}

/// What the worker decides for its latest input at `now_ms`, with the
/// gate field of the configuration, and the state after deciding.
pub open spec fn plan_post(w: AgentWorkerState, n: AgentWorkerState, now_ms: u64, gate: Option<Seq<char>>, r: RequestPlan) -> bool {
    match w.latest_input {
        None => r is Wait && n == w,
        Some(input) => {
            let sig = input_signature(input);
            let retrying = opt_view(w.retry_signature) == Some(sig);
            let m = if w.retry_signature is Some && !retrying { retry_cleared(w) } else { w };
            if trim(sig).len() == 0 {
                r is Wait && n == w
            } else if retrying && (match w.retry_not_before_ms {
                Some(t) => now_ms < t,
                None => false,
            }) {
                r is Wait && n == m
            } else if !input.force && !retrying && (sig == w.last_submitted@ || too_soon(w, now_ms)) {
                r is Wait && n == m
            } else if !input.force && !retrying && !informative_delta_spec(
                input.system_transcript@,
                opt_view(input.microphone_transcript),
                previous_view(match w.last_successful_input {
                    Some(p) => Some(&p),
                    None => None,
                }),
                w.last_result@,
                gate,
            ) {
                &&& r is Wait
                &&& n.last_submitted@ == sig
                &&& n == (AgentWorkerState { last_submitted: n.last_submitted, ..m })
            } else {
                &&& n == m
                &&& match r {
                    RequestPlan::Send { signature, force, force_hints } => {
                        &&& signature@ == sig
                        &&& force == input.force
                        &&& force_hints == (input.force || system_question_spec(
                            input.system_transcript@,
                            previous_system(match w.last_successful_input {
                                Some(p) => Some(&p),
                                None => None,
                            }),
                        ))
                    },
                    RequestPlan::Wait => false,
                }
            }
        },
    }
}

/// The message of a scheduled retry.
pub open spec fn retry_message(count: u32, delay_secs: nat, message: Seq<char>) -> Seq<char> {
    "Temporary API failure; retry "@ + decimal(count as nat) + "/"@ + decimal(AGENT_RETRY_LIMIT as nat) + " in "@
        + decimal(delay_secs) + "s: "@ + compact_error_spec(message, 90)
}

/// The message of a request given up.
pub open spec fn failure_message(message: Seq<char>) -> Seq<char> {
    "OpenAI request failed: "@ + compact_error_spec(message, 90)
}

/// What a failed request does to the worker: a retryable failure with
/// retries left schedules the next retry after its delay; any other failure
/// gives the input up, so it is not sent again unless forced.
pub open spec fn failure_post(
    w: AgentWorkerState,
    n: AgentWorkerState,
    signature: Seq<char>,
    message: Seq<char>,
    retryable: bool,
    now_ms: u64,
    r: FailureReport,
) -> bool {
    if retryable && w.retry_count < AGENT_RETRY_LIMIT {
        let count = (w.retry_count + 1) as u32;
        let delay = retry_delay_spec(count as nat);
        &&& n.retry_count == count
        &&& opt_view(n.retry_signature) == Some(signature)
        &&& n.retry_not_before_ms == Some(crate::errors::sat_add(now_ms, (delay * 1000) as u64))
        &&& n == (AgentWorkerState {
            retry_count: count,
            retry_signature: n.retry_signature,
            retry_not_before_ms: n.retry_not_before_ms,
            ..w
        })
        &&& match r {
            FailureReport::Retrying { message: m, delay_secs } => delay_secs == delay && m@ == retry_message(count, delay, message),
            FailureReport::Failed { .. } => false,
        }
    } else {
        &&& n.last_submitted@ == signature
        &&& n == (AgentWorkerState { last_submitted: n.last_submitted, ..retry_cleared(w) })
        &&& match r {
            FailureReport::Failed { message: m } => m@ == failure_message(message),
            FailureReport::Retrying { .. } => false,
        }
    }
}

/// The end of a request at `now_ms`: the refresh interval starts over, and
/// a forced input that is not to be retried is dropped.
pub open spec fn finish_post(w: AgentWorkerState, n: AgentWorkerState, force: bool, now_ms: u64) -> bool {
    n == (AgentWorkerState {
        last_request_ms: Some(now_ms),
        latest_input: if force && w.retry_signature is None { None } else { w.latest_input },
        ..w
    })
}

/// How many retries of the input of `signature` the worker has scheduled.
pub open spec fn retries_of(w: AgentWorkerState, signature: Seq<char>) -> nat {
    if opt_view(w.retry_signature) == Some(signature) { w.retry_count as nat } else { 0 }
}

impl AgentWorkerState {
    /// The worker as it starts: seeded with the result and input it is
    /// configured with, for `generation`, with no request yet.
    pub fn new(initial_result: JsonValue, initial_input: Option<AgentInput>, generation: u64) -> (r: Self)
        ensures
            worker_wf(r),
            r.latest_input is None,
            r.last_submitted@.len() == 0,
            r.last_result == initial_result,
            r.last_successful_input == initial_input,
            r.last_request_ms is None,
            r.retry_signature is None,
            r.retry_count == 0,
            r.retry_not_before_ms is None,
            !r.received_successful_response,
            r.seen_refresh_generation == generation,
            r.was_allowed,
    {
        AgentWorkerState {
            latest_input: None,
            last_submitted: String::new(),
            last_result: initial_result,
            last_successful_input: initial_input,
            last_request_ms: None,
            retry_signature: None,
            retry_count: 0,
            retry_not_before_ms: None,
            received_successful_response: false,
            seen_refresh_generation: generation,
            was_allowed: true,
        }
    }

    /// Follows a refresh of the screen's generation: everything learnt
    /// under the earlier one is forgotten and the result starts over from
    /// `default_result`. Returns whether there was a refresh.
    pub fn refresh(&mut self, current_generation: u64, default_result: JsonValue) -> (r: bool)
        ensures
            r == (current_generation != old(self).seen_refresh_generation),
            !r ==> *final(self) == *old(self),
            r ==> {
                &&& final(self).last_submitted@.len() == 0
                &&& *final(self) == (AgentWorkerState {
                    latest_input: None,
                    last_submitted: final(self).last_submitted,
                    last_result: default_result,
                    last_successful_input: None,
                    last_request_ms: None,
                    retry_signature: None,
                    retry_count: 0,
                    retry_not_before_ms: None,
                    seen_refresh_generation: current_generation,
                    ..*old(self)
                })
            },
    {
        if current_generation == self.seen_refresh_generation {
            return false;
        }
        self.latest_input = None;
        self.last_submitted = String::new();
        self.last_result = default_result;
        self.last_successful_input = None;
        self.last_request_ms = None;
        self.retry_signature = None;
        self.retry_count = 0;
        self.retry_not_before_ms = None;
        self.seen_refresh_generation = current_generation;
        true
    }

    /// Takes a received input if it belongs to the current generation.
    pub fn take_input(&mut self, input: Option<AgentInput>, current_generation: u64)
        ensures
            match input {
                Some(i) => if i.generation == old(self).seen_refresh_generation && i.generation == current_generation {
                    *final(self) == (AgentWorkerState { latest_input: Some(i), ..*old(self) })
                } else {
                    *final(self) == *old(self)
                },
                None => *final(self) == *old(self),
            },
    {
        if let Some(i) = input {
            if i.generation == self.seen_refresh_generation && i.generation == current_generation {
                self.latest_input = Some(i);
            }
        }
    }

    /// Notes whether requests are allowed; see `PermissionChange`.
    pub fn note_permission(&mut self, allowed: bool) -> (r: PermissionChange)
        ensures
            *final(self) == (AgentWorkerState { was_allowed: allowed, ..*old(self) }),
            r == (if !allowed && old(self).was_allowed {
                PermissionChange::Paused
            } else if allowed && !old(self).was_allowed {
                PermissionChange::Resumed
            } else {
                PermissionChange::Unchanged
            }),
    {
        let r = if !allowed && self.was_allowed {
            PermissionChange::Paused
        } else if allowed && !self.was_allowed {
            PermissionChange::Resumed
        } else {
            PermissionChange::Unchanged
        };
        self.was_allowed = allowed;
        r
    }

    /// Decides whether to send the latest input at `now_ms`; see
    /// `plan_post`. An input is sent when it is forced, when it is due for
    /// a retry, or when it is new, the refresh interval has passed and it
    /// says something new; an input found to say nothing new is not looked
    /// at again.
    pub fn plan_request(&mut self, now_ms: u64, gate_field: Option<&str>) -> (r: RequestPlan)
        ensures
            plan_post(*old(self), *final(self), now_ms, match gate_field {
                Some(g) => Some(g@),
                None => None,
            }, r),
            worker_wf(*old(self)) ==> worker_wf(*final(self)),
    {
        let ghost w = *self;
        let input = match &self.latest_input {
            Some(i) => i.clone(),
            None => return RequestPlan::Wait,
        };
        let signature = crate::agent::agent_input_signature(&input);
        if crate::text::str_is_blank(signature.as_str()) {
            return RequestPlan::Wait;
        }
        let retrying = match &self.retry_signature {
            Some(s) => crate::settings::text_equal(s, &signature),
            None => false,
        };
        if self.retry_signature.is_some() && !retrying {
            self.retry_signature = None;
            self.retry_count = 0;
            self.retry_not_before_ms = None;
        }
        if retrying {
            match self.retry_not_before_ms {
                Some(t) => if now_ms < t {
                    return RequestPlan::Wait;
                },
                None => {},
            }
        }
        if !input.force && !retrying {
            let soon = match self.last_request_ms {
                Some(t) => {
                    let elapsed = if now_ms >= t { now_ms - t } else { 0 };
                    elapsed < AGENT_REFRESH_INTERVAL_MS
                },
                None => false,
            };
            if crate::settings::text_equal(&signature, &self.last_submitted) || soon {
                return RequestPlan::Wait;
            }
            if !crate::insight::agent_input_has_informative_delta(
                &input,
                self.last_successful_input.as_ref(),
                &self.last_result,
                gate_field,
            ) {
                self.last_submitted = signature;
                return RequestPlan::Wait;
            }
        }
        let force_hints = input.force || crate::agent::has_explicit_system_question_delta(
            &input,
            self.last_successful_input.as_ref(),
        );
        RequestPlan::Send { signature, force: input.force, force_hints }
    }

    /// The reference context could not be read for the input of
    /// `signature` at `now_ms`: it is not tried again, and a forced input
    /// is dropped.
    pub fn context_failed(&mut self, signature: String, force: bool, now_ms: u64)
        ensures
            *final(self) == (AgentWorkerState {
                last_submitted: signature,
                retry_signature: None,
                retry_count: 0,
                retry_not_before_ms: None,
                last_request_ms: Some(now_ms),
                latest_input: if force { None } else { old(self).latest_input },
                ..*old(self)
            }),
    {
        self.last_submitted = signature;
        self.retry_signature = None;
        self.retry_count = 0;
        self.retry_not_before_ms = None;
        self.last_request_ms = Some(now_ms);
        if force {
            self.latest_input = None;
        }
    }

    /// How long to wait for the API, in seconds: longer for the first
    /// answer.
    pub fn request_timeout_secs(&self) -> (r: u64)
        ensures
            r == (if self.received_successful_response { 30u64 } else { 75u64 }),
    {
        if self.received_successful_response { 30 } else { 75 }
    }

    /// A request for `input` (of `signature`) was answered with `result`:
    /// the answer is merged into the canonical result, which is returned,
    /// and the input becomes the baseline of the next delta.
    pub fn request_succeeded(&mut self, signature: String, input: AgentInput, fields: &Vec<AgentFieldConfig>, result: JsonValue) -> (r: JsonValue)
        ensures
            r@ == canonical_spec(fields_view(fields@), old(self).last_result@, result@),
            final(self).last_result@ == r@,
            *final(self) == (AgentWorkerState {
                received_successful_response: true,
                last_submitted: signature,
                last_successful_input: Some(input),
                last_result: final(self).last_result,
                retry_signature: None,
                retry_count: 0,
                retry_not_before_ms: None,
                ..*old(self)
            }),
    {
        let merged = crate::insight::canonical_agent_result(fields, &self.last_result, result);
        self.received_successful_response = true;
        self.last_submitted = signature;
        self.last_successful_input = Some(input);
        self.last_result = crate::json::clone_value(&merged);
        self.retry_signature = None;
        self.retry_count = 0;
        self.retry_not_before_ms = None;
        merged
    }

    /// A request for the input of `signature` failed at `now_ms` with
    /// `message`. A retryable failure is retried after a growing delay, at
    /// most `AGENT_RETRY_LIMIT` times; otherwise the input is given up.
    pub fn request_failed(&mut self, signature: String, message: &str, retryable: bool, now_ms: u64) -> (r: FailureReport)
        requires
            worker_wf(*old(self)),
        ensures
            worker_wf(*final(self)),
            failure_post(*old(self), *final(self), signature@, message@, retryable, now_ms, r),
    {
        let compact = crate::delta::compact_error(message, 90);
        if retryable && self.retry_count < AGENT_RETRY_LIMIT {
            self.retry_count = self.retry_count + 1;
            let delay = crate::agent::agent_retry_delay(self.retry_count);
            let sig = signature.clone();
            self.retry_signature = Some(sig);
            self.retry_not_before_ms = Some(now_ms.saturating_add(delay * 1000));
            let mut text = crate::text::chars_of("Temporary API failure; retry ");
            crate::text::append_chars(&mut text, &crate::numbers::decimal_chars(self.retry_count as u64));
            crate::text::append_chars(&mut text, &crate::text::chars_of("/"));
            crate::text::append_chars(&mut text, &crate::numbers::decimal_chars(AGENT_RETRY_LIMIT as u64));
            crate::text::append_chars(&mut text, &crate::text::chars_of(" in "));
            crate::text::append_chars(&mut text, &crate::numbers::decimal_chars(delay));
            crate::text::append_chars(&mut text, &crate::text::chars_of("s: "));
            crate::text::append_chars(&mut text, &crate::text::chars_of(compact.as_str()));
            FailureReport::Retrying { message: crate::text::string_of(&text), delay_secs: delay }
        } else {
            self.last_submitted = signature;
            self.retry_signature = None;
            self.retry_count = 0;
            self.retry_not_before_ms = None;
            let mut text = crate::text::chars_of("OpenAI request failed: ");
            crate::text::append_chars(&mut text, &crate::text::chars_of(compact.as_str()));
            FailureReport::Failed { message: crate::text::string_of(&text) }
        }
    }

    /// A request ended at `now_ms`: the refresh interval starts over, and a
    /// forced input that is not to be retried is dropped.
    pub fn finish_request(&mut self, force: bool, now_ms: u64)
        ensures
            finish_post(*old(self), *final(self), force, now_ms),
    {
        self.last_request_ms = Some(now_ms);
        if force && self.retry_signature.is_none() {
            self.latest_input = None;
        }
    }
}

/// One round of a request that fails: the plan sends the latest input,
/// the request fails (retryably or not) with `message`, and the request
/// ends.
pub open spec fn failed_round(
    w: AgentWorkerState,
    planned: AgentWorkerState,
    failed: AgentWorkerState,
    next: AgentWorkerState,
    start_ms: u64,
    end_ms: u64,
    gate: Option<Seq<char>>,
    plan: RequestPlan,
    retryable: bool,
    message: Seq<char>,
    report: FailureReport,
) -> bool {
    &&& plan_post(w, planned, start_ms, gate, plan)
    &&& match plan {
        RequestPlan::Send { signature, force, .. } => {
            &&& failure_post(planned, failed, signature@, message, retryable, end_ms, report)
            &&& finish_post(failed, next, force, end_ms)
        },
        RequestPlan::Wait => false,
    }
}

/// A retryable failure of a request counts one more retry of its input,
/// announced with its delay and not sent before that delay has passed;
/// once the retries are used up, the failure gives the input up and reports
/// it failed.
pub proof fn retryable_failure_counts_a_retry(
    w: AgentWorkerState,
    planned: AgentWorkerState,
    failed: AgentWorkerState,
    next: AgentWorkerState,
    start_ms: u64,
    end_ms: u64,
    gate: Option<Seq<char>>,
    plan: RequestPlan,
    message: Seq<char>,
    report: FailureReport,
)
    requires
        worker_wf(w),
        failed_round(w, planned, failed, next, start_ms, end_ms, gate, plan, true, message, report),
    ensures
        worker_wf(next),
        plan matches RequestPlan::Send { signature, force, .. } && ({
            let sig = signature@;
            let k = retries_of(w, sig);
            &&& k <= AGENT_RETRY_LIMIT
            &&& w.latest_input matches Some(input) && input_signature(input) == sig
            &&& k < AGENT_RETRY_LIMIT ==> {
                &&& retries_of(next, sig) == k + 1
                &&& next.retry_not_before_ms == Some(crate::errors::sat_add(end_ms, (retry_delay_spec(k + 1) * 1000) as u64))
                &&& next.latest_input == w.latest_input
                &&& report matches FailureReport::Retrying { delay_secs, .. } && delay_secs == retry_delay_spec(k + 1)
            }
            &&& k == AGENT_RETRY_LIMIT ==> {
                &&& retries_of(next, sig) == 0
                &&& next.retry_signature is None
                &&& next.last_submitted@ == sig
                &&& (!force ==> next.latest_input == w.latest_input)
                &&& report is Failed
            }
        }),
{
}

/// An input given up is not sent again while it stays the same and is not
/// forced: planning it waits and changes nothing.
pub proof fn given_up_input_waits(w: AgentWorkerState, n: AgentWorkerState, now_ms: u64, gate: Option<Seq<char>>, r: RequestPlan)
    requires
        w.latest_input matches Some(input) && !input.force && w.last_submitted@ == input_signature(input),
        w.retry_signature is None,
        plan_post(w, n, now_ms, gate, r),
    ensures
        r is Wait,
        n == w,
{
}

/// A scheduled retry waits for its delay: before it, planning the same
/// input waits and changes nothing.
pub proof fn retry_waits_for_its_delay(w: AgentWorkerState, n: AgentWorkerState, now_ms: u64, gate: Option<Seq<char>>, r: RequestPlan)
    requires
        w.latest_input matches Some(input) && opt_view(w.retry_signature) == Some(input_signature(input)),
        w.retry_not_before_ms matches Some(t) && now_ms < t,
        plan_post(w, n, now_ms, gate, r),
    ensures
        r is Wait,
        n == w,
{
}

/// Consecutive rounds of requests that fail retryably: round `i` plans
/// from `before[i]` and ends in `before[i + 1]`.
pub open spec fn failing_rounds(
    before: Seq<AgentWorkerState>,
    planned: Seq<AgentWorkerState>,
    failed: Seq<AgentWorkerState>,
    start_ms: Seq<u64>,
    end_ms: Seq<u64>,
    gate: Option<Seq<char>>,
    plans: Seq<RequestPlan>,
    messages: Seq<Seq<char>>,
    reports: Seq<FailureReport>,
) -> bool {
    &&& before.len() == planned.len() + 1
    &&& failed.len() == planned.len()
    &&& start_ms.len() == planned.len()
    &&& end_ms.len() == planned.len()
    &&& plans.len() == planned.len()
    &&& messages.len() == planned.len()
    &&& reports.len() == planned.len()
    &&& forall|i: int| 0 <= i < planned.len() ==> failed_round(
        #[trigger] before[i],
        planned[i],
        failed[i],
        before[i + 1],
        start_ms[i],
        end_ms[i],
        gate,
        plans[i],
        true,
        messages[i],
        reports[i],
    )
}

proof fn lemma_failing_rounds(
    before: Seq<AgentWorkerState>,
    planned: Seq<AgentWorkerState>,
    failed: Seq<AgentWorkerState>,
    start_ms: Seq<u64>,
    end_ms: Seq<u64>,
    gate: Option<Seq<char>>,
    plans: Seq<RequestPlan>,
    messages: Seq<Seq<char>>,
    reports: Seq<FailureReport>,
    input: AgentInput,
    i: int,
)
    requires
        failing_rounds(before, planned, failed, start_ms, end_ms, gate, plans, messages, reports),
        worker_wf(before[0]),
        before[0].latest_input == Some(input),
        !input.force,
        retries_of(before[0], input_signature(input)) == 0,
        0 <= i <= planned.len(),
        i <= AGENT_RETRY_LIMIT + 1,
    ensures
        worker_wf(before[i]),
        before[i].latest_input == Some(input),
        i <= AGENT_RETRY_LIMIT ==> retries_of(before[i], input_signature(input)) == i,
        i == AGENT_RETRY_LIMIT + 1 ==> before[i].retry_signature is None && before[i].last_submitted@ == input_signature(input),
    decreases i,
{
    if i > 0 {
        let j = i - 1;
        lemma_failing_rounds(before, planned, failed, start_ms, end_ms, gate, plans, messages, reports, input, j);
        assert(failed_round(before[j], planned[j], failed[j], before[j + 1], start_ms[j], end_ms[j], gate, plans[j], true, messages[j], reports[j]));
        retryable_failure_counts_a_retry(before[j], planned[j], failed[j], before[j + 1], start_ms[j], end_ms[j], gate, plans[j], messages[j], reports[j]);
    }
}

/// An unforced input whose requests keep failing retryably, with nothing
/// else happening in between, is sent at most `1 + AGENT_RETRY_LIMIT`
/// times: consecutive failed rounds, starting with no retry of it
/// scheduled, number at most that.
pub proof fn failing_input_is_sent_boundedly(
    before: Seq<AgentWorkerState>,
    planned: Seq<AgentWorkerState>,
    failed: Seq<AgentWorkerState>,
    start_ms: Seq<u64>,
    end_ms: Seq<u64>,
    gate: Option<Seq<char>>,
    plans: Seq<RequestPlan>,
    messages: Seq<Seq<char>>,
    reports: Seq<FailureReport>,
)
    requires
        failing_rounds(before, planned, failed, start_ms, end_ms, gate, plans, messages, reports),
        worker_wf(before[0]),
        before[0].latest_input matches Some(input) && !input.force && retries_of(before[0], input_signature(input)) == 0,
    ensures
        planned.len() <= AGENT_RETRY_LIMIT + 1,
{
    let input = before[0].latest_input->0;
    if planned.len() > AGENT_RETRY_LIMIT + 1 {
        let k = AGENT_RETRY_LIMIT + 1;
        lemma_failing_rounds(before, planned, failed, start_ms, end_ms, gate, plans, messages, reports, input, k as int);
        assert(failed_round(before[k as int], planned[k as int], failed[k as int], before[k + 1], start_ms[k as int], end_ms[k as int], gate, plans[k as int], true, messages[k as int], reports[k as int]));
        given_up_input_waits(before[k as int], planned[k as int], start_ms[k as int], gate, plans[k as int]);
    }
}

/// What the dictation refiner remembers: the phrase it last took and the
/// generation it works for.
pub struct TypingRefinerState {
    pub last_submitted: String,
    pub seen_generation: u64,
}

impl TypingRefinerState {
    /// The refiner as it starts, for `generation`.
    pub fn new(generation: u64) -> (r: Self)
        ensures
            r.last_submitted@.len() == 0,
            r.seen_generation == generation,
    {
        TypingRefinerState { last_submitted: String::new(), seen_generation: generation }
    }

    /// Takes a dictated phrase of `generation` while the screen is at
    /// `current_generation`: a phrase of an older generation is dropped; a
    /// newer generation forgets the last phrase; a blank phrase or the one
    /// just taken is not taken again. Returns the trimmed phrase to refine.
    pub fn take(&mut self, raw_text: &str, generation: u64, current_generation: u64) -> (r: Option<String>)
        ensures
            generation != current_generation ==> r is None && *final(self) == *old(self),
            generation == current_generation ==> {
                let forgot = generation != old(self).seen_generation;
                let last = if forgot { Seq::<char>::empty() } else { old(self).last_submitted@ };
                let t = trim(raw_text@);
                &&& final(self).seen_generation == generation
                &&& match r {
                    Some(p) => p@ == t && t.len() > 0 && t != last && final(self).last_submitted@ == t,
                    None => (t.len() == 0 || t == last) && final(self).last_submitted@ == last,
                }
            },
    {
        if generation != current_generation {
            return None;
        }
        if generation != self.seen_generation {
            self.last_submitted = String::new();
            self.seen_generation = generation;
        }
        let t = crate::text::trim_vec(&crate::text::chars_of(raw_text));
        if t.len() == 0 || crate::normalize::is_text(&t, self.last_submitted.as_str()) {
            return None;
        }
        let phrase = crate::text::string_of(&t);
        self.last_submitted = crate::text::string_of(&t);
        Some(phrase)
    }
}

/// The note shown with a raw phrase when refining it failed.
pub fn refiner_failed_note(message: &str) -> (r: String)
    ensures
        r@ == "raw transcription; refiner failed: "@ + compact_error_spec(message@, 90),
{
    let mut out = crate::text::chars_of("raw transcription; refiner failed: ");
    let compact = crate::delta::compact_error(message, 90);
    crate::text::append_chars(&mut out, &crate::text::chars_of(compact.as_str()));
    crate::text::string_of(&out)
}

} // verus!
