//! The insight pane: each configured field's shown lines, the lines waiting
//! for the field's minimum display time, and the agent's request counters.
use vstd::prelude::*;

use crate::agent::AgentInput;
use crate::agent_config::{AgentFieldConfig, AgentFieldModel, AgentFieldRender};
use crate::insight::AgentUsage;
use crate::json::{
    clone_value, get_spec, has_content, lemma_item_views, str_spec, value_has_content, values_view,
    JsonModel, JsonValue,
};
use crate::layout::string_seqs;
use crate::modes::SourceKind;
use crate::text::{chars_of, string_of, trim, trim_vec};

verus! {

/// Colors of the state markers.
#[derive(Clone, Copy, Debug, PartialEq, Eq, Structural)]
pub enum MarkerColor {
    Red,
    Yellow,
    Cyan,
}

/// Whether `elapsed_ms` milliseconds reach `secs` seconds.
pub open spec fn reached(elapsed_ms: u64, secs: u64) -> bool {
    elapsed_ms as int >= secs as int * 1000
}

fn reached_exec(elapsed_ms: u64, secs: u64) -> (r: bool)
    ensures
        r == reached(elapsed_ms, secs),
{
    (elapsed_ms as u128) >= (secs as u128) * 1000
}

/// `now - then`, or 0 when `then` is later.
pub open spec fn elapsed(now_ms: u64, then_ms: u64) -> u64 {
    if now_ms >= then_ms { (now_ms - then_ms) as u64 } else { 0 }
}

/// A shown insight field.
pub struct AgentFieldState {
    pub config: AgentFieldConfig,
    pub lines: Vec<String>,
    pub pending_lines: Option<Vec<String>>,
    pub updated_at_ms: Option<u64>,
}

/// The mathematical form of a shown field.
pub struct FieldStateModel {
    pub config: AgentFieldModel,
    pub lines: Seq<Seq<char>>,
    pub pending: Option<Seq<Seq<char>>>,
    pub updated_at_ms: Option<u64>,
}

/// The text lines of an optional list of strings.
pub open spec fn opt_lines(o: Option<Vec<String>>) -> Option<Seq<Seq<char>>> {
    match o {
        Some(v) => Some(string_seqs(v@)),
        None => None,
    }
}

impl View for AgentFieldState {
    type V = FieldStateModel;

    open spec fn view(&self) -> FieldStateModel {
        FieldStateModel {
            config: self.config@,
            lines: string_seqs(self.lines@),
            pending: opt_lines(self.pending_lines),
            updated_at_ms: self.updated_at_ms,
        }
    }
}

/// Fresh shown fields for the configurations: nothing shown or pending.
pub fn default_agent_fields(configs: &Vec<AgentFieldConfig>) -> (r: Vec<AgentFieldState>)
    ensures
        r.len() == configs.len(),
        forall|i: int| 0 <= i < r.len() ==> (#[trigger] r@[i])@ == (FieldStateModel {
            config: configs@[i]@,
            lines: Seq::empty(),
            pending: None,
            updated_at_ms: None,
        }),
{
    let mut out: Vec<AgentFieldState> = Vec::new();
    let mut i: usize = 0;
    while i < configs.len()
        invariant
            i <= configs.len(),
            out.len() == i,
            forall|j: int| 0 <= j < i ==> (#[trigger] out@[j])@ == (FieldStateModel {
                config: configs@[j]@,
                lines: Seq::empty(),
                pending: None,
                updated_at_ms: None,
            }),
        decreases configs.len() - i,
    {
        let lines: Vec<String> = Vec::new();
        assert(string_seqs(lines@) =~= Seq::<Seq<char>>::empty());
        out.push(AgentFieldState {
            config: configs[i].clone(),
            lines,
            pending_lines: None,
            updated_at_ms: None,
        });
        i += 1;
    }
    out
}

fn strings_equal(a: &Vec<String>, b: &Vec<String>) -> (r: bool)
    ensures
        r == (string_seqs(a@) == string_seqs(b@)),
{
    if a.len() != b.len() {
        assert(string_seqs(a@).len() != string_seqs(b@).len());
        return false;
    }
    let mut i: usize = 0;
    while i < a.len()
        invariant
            i <= a.len(),
            a.len() == b.len(),
            forall|j: int| 0 <= j < i ==> (#[trigger] a@[j])@ == b@[j]@,
        decreases a.len() - i,
    {
        let x = chars_of(a[i].as_str());
        let y = chars_of(b[i].as_str());
        if !crate::text::chars_equal(&x, &y) {
            assert(string_seqs(a@)[i as int] != string_seqs(b@)[i as int]);
            return false;
        }
        i += 1;
    }
    assert(string_seqs(a@) =~= string_seqs(b@));
    true
}

/// The lines a text field shows: the trimmed text, or the field's empty
/// marker when it is blank or missing.
pub open spec fn text_lines_spec(config: AgentFieldModel, value: Option<JsonModel>) -> Seq<Seq<char>> {
    let text = trim(match value {
        Some(v) => match str_spec(v) {
            Some(s) => s,
            None => Seq::empty(),
        },
        None => Seq::empty(),
    });
    if text.len() == 0 {
        seq![config.empty]
    } else {
        seq![text]
    }
}

/// The bullet lines of the non-blank string items, trimmed.
pub open spec fn bullet_lines(items: Seq<JsonModel>) -> Seq<Seq<char>>
    decreases items.len(),
{
    if items.len() == 0 {
        Seq::empty()
    } else {
        let rest = bullet_lines(items.drop_last());
        match str_spec(items.last()) {
            Some(s) => if trim(s).len() > 0 { rest.push("- "@ + trim(s)) } else { rest },
            None => rest,
        }
    }
}

/// The lines a list field shows: one bullet per non-blank string item, or
/// the field's empty marker when there is none.
pub open spec fn list_lines_spec(config: AgentFieldModel, value: Option<JsonModel>) -> Seq<Seq<char>> {
    let lines = match value {
        Some(JsonModel::Array(items)) => bullet_lines(items),
        _ => Seq::empty(),
    };
    if lines.len() == 0 {
        seq![config.empty]
    } else {
        lines
    }
}

/// The lines a field shows for its value in a result.
pub open spec fn value_lines_spec(config: AgentFieldModel, value: Option<JsonModel>) -> Seq<Seq<char>> {
    match config.render {
        AgentFieldRender::Text => text_lines_spec(config, value),
        AgentFieldRender::List => list_lines_spec(config, value),
    }
}

/// The lines a field shows for its value; see `value_lines_spec`.
pub fn agent_field_value_lines(config: &AgentFieldConfig, value: Option<&JsonValue>) -> (r: Vec<String>)
    ensures
        string_seqs(r@) == value_lines_spec(config@, match value { Some(v) => Some(v@), None => None }),
{
    let mut out: Vec<String> = Vec::new();
    match config.render {
        AgentFieldRender::Text => {
            let text = match value {
                Some(v) => match v.as_str() {
                    Some(s) => chars_of(s.as_str()),
                    None => Vec::new(),
                },
                None => Vec::new(),
            };
            let t = trim_vec(&text);
            if t.len() == 0 {
                out.push(config.empty.clone());
            } else {
                out.push(string_of(&t));
            }
            assert(string_seqs(out@) =~= value_lines_spec(config@, match value { Some(v) => Some(v@), None => None }));
        },
        AgentFieldRender::List => {
            match value {
                Some(JsonValue::Array(items)) => {
                    proof {
                        lemma_item_views(items@, items@.len());
                    }
                    let mut i: usize = 0;
                    while i < items.len()
                        invariant
                            i <= items.len(),
                            values_view(items@).len() == items.len(),
                            forall|j: int| 0 <= j < items.len() ==> #[trigger] values_view(items@)[j] == crate::json::json_view(items@[j]),
                            string_seqs(out@) == bullet_lines(values_view(items@).take(i as int)),
                        decreases items.len() - i,
                    {
                        let ghost its = values_view(items@).take(i + 1);
                        assert(its.drop_last() =~= values_view(items@).take(i as int));
                        assert(its.last() == items@[i as int]@);
                        match &items[i] {
                            JsonValue::Str(s) => {
                                let t = trim_vec(&chars_of(s.as_str()));
                                if t.len() > 0 {
                                    let mut line = chars_of("- ");
                                    crate::text::append_chars(&mut line, &t);
                                    let ghost before = string_seqs(out@);
                                    out.push(string_of(&line));
                                    assert(string_seqs(out@) =~= before.push("- "@ + t@));
                                }
                            },
                            _ => {},
                        }
                        i += 1;
                    }
                    assert(values_view(items@).take(items.len() as int) =~= values_view(items@));
                },
                _ => {
                    assert(string_seqs(out@) =~= Seq::<Seq<char>>::empty());
                },
            }
            if out.len() == 0 {
                out.push(config.empty.clone());
                assert(string_seqs(out@) =~= seq![config.empty@]);
            }
        },
    }
    out
}

/// A field given new lines at `now_ms`: equal lines drop any pending ones;
/// other lines replace the shown ones when forced, when the field has no
/// minimum display time, shows nothing, or has shown its lines long enough;
/// otherwise they wait as pending lines. The flag tells whether the shown
/// lines changed.
pub open spec fn field_update_spec(f: FieldStateModel, lines: Seq<Seq<char>>, force: bool, now_ms: u64) -> (FieldStateModel, bool) {
    if f.lines == lines {
        (FieldStateModel { pending: None, ..f }, false)
    } else {
        let can_replace = force || f.config.min_display_secs == 0 || f.lines.len() == 0 || match f.updated_at_ms {
            Some(t) => reached(elapsed(now_ms, t), f.config.min_display_secs),
            None => true,
        };
        if can_replace {
            (FieldStateModel { lines, pending: None, updated_at_ms: Some(now_ms), ..f }, true)
        } else {
            (FieldStateModel { pending: Some(lines), ..f }, false)
        }
    }
}

/// Gives a field new lines; see `field_update_spec`.
pub fn update_agent_field(field: &mut AgentFieldState, lines: Vec<String>, force_delayed_fields: bool, now_ms: u64) -> (r: bool)
    ensures
        (final(field)@, r) == field_update_spec(old(field)@, string_seqs(lines@), force_delayed_fields, now_ms),
{
    if strings_equal(&field.lines, &lines) {
        field.pending_lines = None;
        return false;
    }
    let can_replace = force_delayed_fields || field.config.min_display_secs == 0 || field.lines.len() == 0
        || match field.updated_at_ms {
        Some(t) => reached_exec(now_ms.saturating_sub(t), field.config.min_display_secs),
        None => true,
    };
    if can_replace {
        field.lines = lines;
        field.pending_lines = None;
        field.updated_at_ms = Some(now_ms);
        return true;
    }
    let same_pending = match &field.pending_lines {
        Some(p) => strings_equal(p, &lines),
        None => false,
    };
    if !same_pending {
        field.pending_lines = Some(lines);
    }
    false
}

/// Whether a field shows a line other than its empty marker.
pub open spec fn shows_value(f: FieldStateModel) -> bool {
    exists|i: int| 0 <= i < f.lines.len() && trim(#[trigger] f.lines[i]) != f.config.empty
}

/// A field after a new result: a field kept on empty that shows a value
/// keeps it when the result has no content for it (dropping pending
/// lines); any other field gets the lines of its value.
pub open spec fn apply_field_spec(f: FieldStateModel, result: JsonModel, force: bool, now_ms: u64) -> (FieldStateModel, bool) {
    let value = get_spec(result, f.config.key);
    let value_has = match value {
        Some(v) => has_content(v),
        None => false,
    };
    if f.config.preserve_on_empty && shows_value(f) && !value_has {
        (FieldStateModel { pending: None, ..f }, false)
    } else {
        field_update_spec(f, value_lines_spec(f.config, value), force, now_ms)
    }
}

fn shows_value_exec(field: &AgentFieldState) -> (r: bool)
    ensures
        r == shows_value(field@),
{
    let empty = chars_of(field.config.empty.as_str());
    let mut i: usize = 0;
    while i < field.lines.len()
        invariant
            i <= field.lines.len(),
            empty@ == field.config.empty@,
            forall|j: int| 0 <= j < i ==> trim(#[trigger] string_seqs(field.lines@)[j]) == field.config.empty@,
        decreases field.lines.len() - i,
    {
        let t = trim_vec(&chars_of(field.lines[i].as_str()));
        assert(string_seqs(field.lines@)[i as int] == field.lines@[i as int]@);
        if !crate::text::chars_equal(&t, &empty) {
            assert(field@.lines[i as int] == field.lines@[i as int]@);
            assert(trim(field@.lines[i as int]) != field@.config.empty);
            return true;
        }
        i += 1;
    }
    false
}

fn apply_field(field: &mut AgentFieldState, result: &JsonValue, force: bool, now_ms: u64) -> (r: bool)
    ensures
        (final(field)@, r) == apply_field_spec(old(field)@, result@, force, now_ms),
{
    let value = result.get(field.config.key.as_str());
    let value_has = match value {
        Some(v) => value_has_content(v),
        None => false,
    };
    if field.config.preserve_on_empty && shows_value_exec(field) && !value_has {
        field.pending_lines = None;
        return false;
    }
    let lines = agent_field_value_lines(&field.config, value);
    update_agent_field(field, lines, force, now_ms)
}

/// A field whose pending lines are due at `now_ms` shows them: due when it
/// has shown its lines for its minimum display time, or has no update time.
pub open spec fn promote_field_spec(f: FieldStateModel, now_ms: u64) -> (FieldStateModel, bool) {
    match f.pending {
        None => (f, false),
        Some(p) => {
            let ready = match f.updated_at_ms {
                Some(t) => reached(elapsed(now_ms, t), f.config.min_display_secs),
                None => true,
            };
            if ready {
                (FieldStateModel { lines: p, pending: None, updated_at_ms: Some(now_ms), ..f }, true)
            } else {
                (f, false)
            }
        },
    }
}

/// The insight pane.
pub struct AgentPaneState {
    pub enabled: bool,
    pub fields: Vec<AgentFieldState>,
    pub canonical_result: JsonValue,
    pub last_successful_input: Option<AgentInput>,
    pub status: String,
    pub microphone_active: bool,
    pub system_output_active: bool,
    pub request_in_flight: bool,
    pub request_count: u64,
    pub input_tokens: u64,
    pub output_tokens: u64,
    pub total_tokens: u64,
    pub last_total_tokens: Option<u64>,
    pub last_query_bytes: Option<usize>,
    pub last_error: Option<String>,
}

/// Whether adding a usage to the running totals stays in range.
pub open spec fn usage_fits(input: u64, output: u64, total: u64, usage: Option<AgentUsage>) -> bool {
    match usage {
        Some(u) => input + u.input_tokens <= u64::MAX && output + u.output_tokens <= u64::MAX && total
            + u.total_tokens <= u64::MAX,
        None => true,
    }
}

/// Whether counters `input`, `output` and `total` can take a usage; see
/// `usage_fits`.
pub fn counters_take(input: u64, output: u64, total: u64, usage: &Option<AgentUsage>) -> (r: bool)
    ensures
        r == usage_fits(input, output, total, *usage),
{
    match usage {
        Some(u) => input <= u64::MAX - u.input_tokens && output <= u64::MAX - u.output_tokens && total <= u64::MAX - u.total_tokens,
        None => true,
    }
}

impl AgentPaneState {
    /// Whether the pane's counters can take a usage; see `usage_fits`.
    pub fn usage_fits_counters(&self, usage: &Option<AgentUsage>) -> (r: bool)
        ensures
            r == usage_fits(self.input_tokens, self.output_tokens, self.total_tokens, *usage),
    {
        counters_take(self.input_tokens, self.output_tokens, self.total_tokens, usage)
    }

    /// Notes whether a source is active; returns whether that changed.
    pub fn set_source_activity(&mut self, source: SourceKind, active: bool) -> (r: bool)
        ensures
            r == (match source {
                SourceKind::Microphone => old(self).microphone_active != active,
                SourceKind::SystemOutput => old(self).system_output_active != active,
            }),
            *final(self) == (match source {
                SourceKind::Microphone => AgentPaneState { microphone_active: active, ..*old(self) },
                SourceKind::SystemOutput => AgentPaneState { system_output_active: active, ..*old(self) },
            }),
    {
        match source {
            SourceKind::Microphone => {
                if self.microphone_active == active {
                    return false;
                }
                self.microphone_active = active;
                true
            },
            SourceKind::SystemOutput => {
                if self.system_output_active == active {
                    return false;
                }
                self.system_output_active = active;
                true
            },
        }
    }

    /// The pane's state marker: waiting for the model, holding for the
    /// microphone, hearing system output, or none.
    pub fn marker(&self) -> (r: Option<(&'static str, MarkerColor)>)
        ensures
            match r {
                Some((text, color)) => if self.request_in_flight {
                    text@ == "\u{25cf} waiting"@ && color == MarkerColor::Red
                } else if self.microphone_active {
                    text@ == "\u{25cf} hold"@ && color == MarkerColor::Yellow
                } else {
                    self.system_output_active && text@ == "\u{25cf} hearing"@ && color == MarkerColor::Cyan
                },
                None => !self.request_in_flight && !self.microphone_active && !self.system_output_active,
            },
    {
        if self.request_in_flight {
            Some(("\u{25cf} waiting", MarkerColor::Red))
        } else if self.microphone_active {
            Some(("\u{25cf} hold", MarkerColor::Yellow))
        } else if self.system_output_active {
            Some(("\u{25cf} hearing", MarkerColor::Cyan))
        } else {
            None
        }
    }

    /// A request went out with `query_bytes` bytes.
    pub fn start_request(&mut self, query_bytes: usize)
        requires
            old(self).request_count < u64::MAX,
        ensures
            final(self).status@ == "waiting for model"@,
            *final(self) == (AgentPaneState {
                request_in_flight: true,
                request_count: (old(self).request_count + 1) as u64,
                last_query_bytes: Some(query_bytes),
                status: final(self).status,
                ..*old(self)
            }),
    {
        self.request_in_flight = true;
        self.request_count = self.request_count + 1;
        self.last_query_bytes = Some(query_bytes);
        self.status = string_of(&chars_of("waiting for model"));
    }

    /// The request in flight ended.
    pub fn finish_request(&mut self)
        ensures
            *final(self) == (AgentPaneState { request_in_flight: false, ..*old(self) }),
    {
        self.request_in_flight = false;
    }

    /// Keeps the last error message.
    pub fn record_error(&mut self, message: String)
        ensures
            *final(self) == (AgentPaneState { last_error: Some(message), ..*old(self) }),
    {
        self.last_error = Some(message);
    }

    /// Forgets the last error.
    pub fn clear_error(&mut self)
        ensures
            *final(self) == (AgentPaneState { last_error: None, ..*old(self) }),
    {
        self.last_error = None;
    }

    /// Adds a request's token usage to the totals.
    pub fn record_usage(&mut self, usage: Option<AgentUsage>)
        requires
            usage_fits(old(self).input_tokens, old(self).output_tokens, old(self).total_tokens, usage),
        ensures
            *final(self) == (match usage {
                Some(u) => AgentPaneState {
                    input_tokens: (old(self).input_tokens + u.input_tokens) as u64,
                    output_tokens: (old(self).output_tokens + u.output_tokens) as u64,
                    total_tokens: (old(self).total_tokens + u.total_tokens) as u64,
                    last_total_tokens: Some(u.total_tokens),
                    ..*old(self)
                },
                None => *old(self),
            }),
    {
        match usage {
            Some(u) => {
                self.input_tokens = self.input_tokens + u.input_tokens;
                self.output_tokens = self.output_tokens + u.output_tokens;
                self.total_tokens = self.total_tokens + u.total_tokens;
                self.last_total_tokens = Some(u.total_tokens);
            },
            None => {},
        }
    }

    /// Shows a result in the fields; see `apply_field_spec`. Returns whether
    /// some field's shown lines changed.
    pub fn apply_result(&mut self, result: &JsonValue, force_delayed_fields: bool, now_ms: u64) -> (r: bool)
        ensures
            final(self).fields.len() == old(self).fields.len(),
            forall|i: int| 0 <= i < old(self).fields.len() ==> (#[trigger] final(self).fields@[i])@
                == apply_field_spec(old(self).fields@[i]@, result@, force_delayed_fields, now_ms).0,
            r == exists|i: int| 0 <= i < old(self).fields.len() && #[trigger] apply_field_spec(
                old(self).fields@[i]@,
                result@,
                force_delayed_fields,
                now_ms,
            ).1,
            *final(self) == (AgentPaneState { fields: final(self).fields, ..*old(self) }),
    {
        let mut changed = false;
        let mut i: usize = 0;
        let ghost olds = self.fields@;
        while i < self.fields.len()
            invariant
                i <= self.fields.len(),
                self.fields.len() == olds.len(),
                forall|j: int| 0 <= j < i ==> (#[trigger] self.fields@[j])@ == apply_field_spec(olds[j]@, result@, force_delayed_fields, now_ms).0,
                forall|j: int| i <= j < olds.len() ==> #[trigger] self.fields@[j] == olds[j],
                changed == exists|j: int| 0 <= j < i && #[trigger] apply_field_spec(olds[j]@, result@, force_delayed_fields, now_ms).1,
                *self == (AgentPaneState { fields: self.fields, ..*old(self) }),
            decreases olds.len() - i,
        {
            let field_changed = apply_field(&mut self.fields[i], result, force_delayed_fields, now_ms);
            changed = changed || field_changed;
            proof {
                if field_changed {
                    assert(apply_field_spec(olds[i as int]@, result@, force_delayed_fields, now_ms).1);
                }
            }
            i += 1;
        }
        changed
    }

    /// Shows the pending lines that are due; see `promote_field_spec`.
    pub fn promote_pending_fields(&mut self, now_ms: u64) -> (r: bool)
        ensures
            final(self).fields.len() == old(self).fields.len(),
            forall|i: int| 0 <= i < old(self).fields.len() ==> (#[trigger] final(self).fields@[i])@
                == promote_field_spec(old(self).fields@[i]@, now_ms).0,
            r == exists|i: int| 0 <= i < old(self).fields.len() && #[trigger] promote_field_spec(old(self).fields@[i]@, now_ms).1,
            *final(self) == (AgentPaneState { fields: final(self).fields, ..*old(self) }),
    {
        let mut changed = false;
        let mut i: usize = 0;
        let ghost olds = self.fields@;
        while i < self.fields.len()
            invariant
                i <= self.fields.len(),
                self.fields.len() == olds.len(),
                forall|j: int| 0 <= j < i ==> (#[trigger] self.fields@[j])@ == promote_field_spec(olds[j]@, now_ms).0,
                forall|j: int| i <= j < olds.len() ==> #[trigger] self.fields@[j] == olds[j],
                changed == exists|j: int| 0 <= j < i && #[trigger] promote_field_spec(olds[j]@, now_ms).1,
                *self == (AgentPaneState { fields: self.fields, ..*old(self) }),
            decreases olds.len() - i,
        {
            let field = &mut self.fields[i];
            let ready = match field.updated_at_ms {
                Some(t) => reached_exec(now_ms.saturating_sub(t), field.config.min_display_secs),
                None => true,
            };
            let mut field_changed = false;
            if ready {
                match field.pending_lines.take() {
                    Some(p) => {
                        field.lines = p;
                        field.updated_at_ms = Some(now_ms);
                        field_changed = true;
                    },
                    None => {},
                }
            }
            changed = changed || field_changed;
            proof {
                if field_changed {
                    assert(promote_field_spec(olds[i as int]@, now_ms).1);
                }
            }
            i += 1;
        }
        changed
    }

    /// Whether some field has non-empty pending lines.
    pub fn has_pending_content(&self) -> (r: bool)
        ensures
            r == exists|i: int| 0 <= i < self.fields.len() && match (#[trigger] self.fields@[i])@.pending {
                Some(p) => p.len() > 0,
                None => false,
            },
    {
        let mut i: usize = 0;
        while i < self.fields.len()
            invariant
                i <= self.fields.len(),
                forall|j: int| 0 <= j < i ==> !match (#[trigger] self.fields@[j])@.pending {
                    Some(p) => p.len() > 0,
                    None => false,
                },
            decreases self.fields.len() - i,
        {
            match &self.fields[i].pending_lines {
                Some(p) => {
                    if p.len() > 0 {
                        return true;
                    }
                },
                None => {},
            }
            i += 1;
        }
        false
    }

    /// Whether some field shows lines.
    pub fn has_content(&self) -> (r: bool)
        ensures
            r == exists|i: int| 0 <= i < self.fields.len() && (#[trigger] self.fields@[i])@.lines.len() > 0,
    {
        let mut i: usize = 0;
        while i < self.fields.len()
            invariant
                i <= self.fields.len(),
                forall|j: int| 0 <= j < i ==> (#[trigger] self.fields@[j])@.lines.len() == 0,
            decreases self.fields.len() - i,
        {
            if self.fields[i].lines.len() > 0 {
                return true;
            }
            i += 1;
        }
        false
    }

    /// The field configurations of the pane.
    pub fn field_configs(&self) -> (r: Vec<AgentFieldConfig>)
        ensures
            r.len() == self.fields.len(),
            forall|i: int| 0 <= i < r.len() ==> (#[trigger] r@[i])@ == self.fields@[i].config@,
    {
        let mut out: Vec<AgentFieldConfig> = Vec::new();
        let mut i: usize = 0;
        while i < self.fields.len()
            invariant
                i <= self.fields.len(),
                out.len() == i,
                forall|j: int| 0 <= j < i ==> (#[trigger] out@[j])@ == self.fields@[j].config@,
            decreases self.fields.len() - i,
        {
            out.push(self.fields[i].config.clone());
            i += 1;
        }
        out
    }
}

} // verus!
