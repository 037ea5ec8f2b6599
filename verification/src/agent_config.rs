//! The agent's instructions file: the fenced `agent-config` block that
//! declares the insight fields, its validation into field configurations,
//! and the response schema built from them.
use vstd::prelude::*;

use crate::json::{
    clone_value, get_spec, member, opt_str_spec, str_spec, JsonModel, JsonValue,
};
use crate::layout::{lines_of, split_lines, string_seqs};
use crate::numbers::decimal;
use crate::text::{
    chars_equal, chars_equal_str, chars_of, lower_seq, seqs, string_of, to_ascii_lowercase, trim,
    trim_vec,
};

verus! {

/// Name of the agent instructions file, used in messages.
pub const AGENT_INSTRUCTIONS_FILE: &'static str = "agent-instructions.md";

/// Default output budget of an agent request, in tokens.
pub const DEFAULT_MAX_OUTPUT_TOKENS: u64 = 220;

/// How an insight field is shown.
#[derive(Clone, Copy, Debug, PartialEq, Eq, Structural)]
pub enum AgentFieldRender {
    Text,
    List,
}

/// One validated insight field.
pub struct AgentFieldConfig {
    pub key: String,
    pub title: String,
    pub render: AgentFieldRender,
    pub empty: String,
    pub title_rgb: (u8, u8, u8),
    pub value_rgb: (u8, u8, u8),
    pub min_display_secs: u64,
    pub preserve_on_empty: bool,
    pub schema: JsonValue,
}

/// The mathematical form of an insight field.
pub struct AgentFieldModel {
    pub key: Seq<char>,
    pub title: Seq<char>,
    pub render: AgentFieldRender,
    pub empty: Seq<char>,
    pub title_rgb: (u8, u8, u8),
    pub value_rgb: (u8, u8, u8),
    pub min_display_secs: u64,
    pub preserve_on_empty: bool,
    pub schema: JsonModel,
}

impl View for AgentFieldConfig {
    type V = AgentFieldModel;

    open spec fn view(&self) -> AgentFieldModel {
        AgentFieldModel {
            key: self.key@,
            title: self.title@,
            render: self.render,
            empty: self.empty@,
            title_rgb: self.title_rgb,
            value_rgb: self.value_rgb,
            min_display_secs: self.min_display_secs,
            preserve_on_empty: self.preserve_on_empty,
            schema: self.schema@,
        }
    }
}

impl Clone for AgentFieldConfig {
    fn clone(&self) -> (r: Self)
        ensures
            r@ == self@,
    {
        AgentFieldConfig {
            key: self.key.clone(),
            title: self.title.clone(),
            render: self.render,
            empty: self.empty.clone(),
            title_rgb: self.title_rgb,
            value_rgb: self.value_rgb,
            min_display_secs: self.min_display_secs,
            preserve_on_empty: self.preserve_on_empty,
            schema: clone_value(&self.schema),
        }
    }
}

/// The models of a list of fields.
pub open spec fn fields_view(fs: Seq<AgentFieldConfig>) -> Seq<AgentFieldModel> {
    fs.map_values(|f: AgentFieldConfig| f@)
}

/// Copies a list of fields.
pub fn clone_fields(fs: &Vec<AgentFieldConfig>) -> (r: Vec<AgentFieldConfig>)
    ensures
        fields_view(r@) == fields_view(fs@),
{
    let mut out: Vec<AgentFieldConfig> = Vec::new();
    let mut i: usize = 0;
    while i < fs.len()
        invariant
            i <= fs.len(),
            fields_view(out@) == fields_view(fs@).take(i as int),
        decreases fs.len() - i,
    {
        let ghost before = fields_view(out@);
        out.push(fs[i].clone());
        assert(fields_view(out@) =~= before.push(fs@[i as int]@));
        i += 1;
        assert(fields_view(fs@).take(i as int) =~= fields_view(fs@).take(i - 1).push(fs@[i - 1]@));
    }
    assert(fields_view(fs@).take(fs.len() as int) =~= fields_view(fs@));
    out
}

/// One field as the configuration declares it, before validation.
pub struct RawAgentFieldConfig {
    pub key: String,
    pub title: String,
    pub render: Option<String>,
    pub empty: Option<String>,
    pub title_color: String,
    pub value_color: String,
    pub min_display_seconds: Option<u64>,
    pub preserve_on_empty: bool,
    pub schema: JsonValue,
}

/// The configuration as declared, before validation.
pub struct RawAgentInstructionsConfig {
    pub max_output_tokens: Option<u64>,
    pub microphone_delta_gate_field: Option<String>,
    pub fields: Vec<RawAgentFieldConfig>,
}

/// A validated configuration.
pub struct ParsedAgentConfig {
    pub max_output_tokens: u64,
    pub microphone_delta_gate_field: Option<String>,
    pub fields: Vec<AgentFieldConfig>,
}

/// What is wrong with a configuration.
#[derive(Clone, Copy, Debug, PartialEq, Eq, Structural)]
pub enum ConfigErrorKind {
    NoFields,
    MaxOutputTokens,
    EmptyKey,
    InvalidKey,
    DuplicateKey,
    EmptyTitle,
    UnsupportedRender,
    SchemaTypeMissing,
    SchemaTypeUnsupported,
    TextNeedsString,
    ListNeedsArray,
    ItemsMissing,
    ItemTypeMissing,
    ItemTypeNotString,
    TitleColorMissingHash,
    TitleColorNotRgb,
    ValueColorMissingHash,
    ValueColorNotRgb,
    GateInvalidKey,
    GateMissing,
}

/// A configuration error: its kind, the number it is about (a field index,
/// field number or token count), the key or value it names, and the
/// offending detail.
pub struct AgentConfigError {
    pub kind: ConfigErrorKind,
    pub number: u64,
    pub subject: String,
    pub detail: String,
}

/// The mathematical form of a configuration error.
pub type ConfigErrorModel = (ConfigErrorKind, u64, Seq<char>, Seq<char>);

impl View for AgentConfigError {
    type V = ConfigErrorModel;

    open spec fn view(&self) -> ConfigErrorModel {
        (self.kind, self.number, self.subject@, self.detail@)
    }
}

/// The parts of a configuration error's message: text, value, text, value.
pub open spec fn message_parts(kind: ConfigErrorKind, number: u64, subject: Seq<char>, detail: Seq<char>) -> (Seq<char>, Seq<char>, Seq<char>, Seq<char>) {
    match kind {
        ConfigErrorKind::NoFields => ("agent-config.fields must contain at least one field"@, Seq::<char>::empty(), ""@, Seq::<char>::empty()),
        ConfigErrorKind::MaxOutputTokens => ("agent-config.max_output_tokens must be from 1 to 4096, got "@, decimal(number as nat), ""@, Seq::<char>::empty()),
        ConfigErrorKind::EmptyKey => ("agent-config.fields["@, decimal(number as nat), "].key must not be empty"@, Seq::<char>::empty()),
        ConfigErrorKind::InvalidKey => ("agent-config.fields["@, decimal(number as nat), "].key must use lowercase letters, digits, and underscores only: "@, subject),
        ConfigErrorKind::DuplicateKey => ("agent-config.fields["@, decimal(number as nat), "].key duplicates an earlier field: "@, subject),
        ConfigErrorKind::EmptyTitle => ("agent-config field "@, subject, " must have a non-empty title"@, Seq::<char>::empty()),
        ConfigErrorKind::UnsupportedRender => ("agent-config field "@, subject, " has unsupported render value: "@, detail),
        ConfigErrorKind::SchemaTypeMissing => ("agent-config field "@, subject, " schema must include a string type"@, Seq::<char>::empty()),
        ConfigErrorKind::SchemaTypeUnsupported => ("agent-config field "@, subject, " schema type must be string or array, got "@, detail),
        ConfigErrorKind::TextNeedsString => ("agent-config field "@, subject, " uses render=text, so schema.type must be string, got "@, detail),
        ConfigErrorKind::ListNeedsArray => ("agent-config field "@, subject, " uses render=list, so schema.type must be array, got "@, detail),
        ConfigErrorKind::ItemsMissing => ("agent-config field "@, subject, " array schema must include items"@, Seq::<char>::empty()),
        ConfigErrorKind::ItemTypeMissing => ("agent-config field "@, subject, " array schema items must include a string type"@, Seq::<char>::empty()),
        ConfigErrorKind::ItemTypeNotString => ("agent-config field "@, subject, " array schema items.type must be string, got "@, detail),
        ConfigErrorKind::TitleColorMissingHash => ("invalid title_color for field #"@, decimal(number as nat), ": color must start with #: "@, subject),
        ConfigErrorKind::TitleColorNotRgb => ("invalid title_color for field #"@, decimal(number as nat), ": color must be #RRGGBB: "@, subject),
        ConfigErrorKind::ValueColorMissingHash => ("invalid value_color for field #"@, decimal(number as nat), ": color must start with #: "@, subject),
        ConfigErrorKind::ValueColorNotRgb => ("invalid value_color for field #"@, decimal(number as nat), ": color must be #RRGGBB: "@, subject),
        ConfigErrorKind::GateInvalidKey => ("agent-config.microphone_delta_gate_field must use lowercase letters, digits, and underscores only: "@, subject, ""@, Seq::<char>::empty()),
        ConfigErrorKind::GateMissing => ("agent-config.microphone_delta_gate_field references missing field: "@, subject, ""@, Seq::<char>::empty()),
    }
}

/// The message of a configuration error.
pub open spec fn config_message_spec(e: ConfigErrorModel) -> Seq<char> {
    let p = message_parts(e.0, e.1, e.2, e.3);
    p.0 + p.1 + p.2 + p.3
}

impl AgentConfigError {
    /// The message shown for this error; see `config_message_spec`.
    pub fn message(&self) -> (r: String)
        ensures
            r@ == config_message_spec(self@),
    {
        let (a, x, b, y) = match self.kind {
            ConfigErrorKind::NoFields => ("agent-config.fields must contain at least one field", Vec::new(), "", Vec::new()),
            ConfigErrorKind::MaxOutputTokens => ("agent-config.max_output_tokens must be from 1 to 4096, got ", crate::numbers::decimal_chars(self.number), "", Vec::new()),
            ConfigErrorKind::EmptyKey => ("agent-config.fields[", crate::numbers::decimal_chars(self.number), "].key must not be empty", Vec::new()),
            ConfigErrorKind::InvalidKey => ("agent-config.fields[", crate::numbers::decimal_chars(self.number), "].key must use lowercase letters, digits, and underscores only: ", chars_of(self.subject.as_str())),
            ConfigErrorKind::DuplicateKey => ("agent-config.fields[", crate::numbers::decimal_chars(self.number), "].key duplicates an earlier field: ", chars_of(self.subject.as_str())),
            ConfigErrorKind::EmptyTitle => ("agent-config field ", chars_of(self.subject.as_str()), " must have a non-empty title", Vec::new()),
            ConfigErrorKind::UnsupportedRender => ("agent-config field ", chars_of(self.subject.as_str()), " has unsupported render value: ", chars_of(self.detail.as_str())),
            ConfigErrorKind::SchemaTypeMissing => ("agent-config field ", chars_of(self.subject.as_str()), " schema must include a string type", Vec::new()),
            ConfigErrorKind::SchemaTypeUnsupported => ("agent-config field ", chars_of(self.subject.as_str()), " schema type must be string or array, got ", chars_of(self.detail.as_str())),
            ConfigErrorKind::TextNeedsString => ("agent-config field ", chars_of(self.subject.as_str()), " uses render=text, so schema.type must be string, got ", chars_of(self.detail.as_str())),
            ConfigErrorKind::ListNeedsArray => ("agent-config field ", chars_of(self.subject.as_str()), " uses render=list, so schema.type must be array, got ", chars_of(self.detail.as_str())),
            ConfigErrorKind::ItemsMissing => ("agent-config field ", chars_of(self.subject.as_str()), " array schema must include items", Vec::new()),
            ConfigErrorKind::ItemTypeMissing => ("agent-config field ", chars_of(self.subject.as_str()), " array schema items must include a string type", Vec::new()),
            ConfigErrorKind::ItemTypeNotString => ("agent-config field ", chars_of(self.subject.as_str()), " array schema items.type must be string, got ", chars_of(self.detail.as_str())),
            ConfigErrorKind::TitleColorMissingHash => ("invalid title_color for field #", crate::numbers::decimal_chars(self.number), ": color must start with #: ", chars_of(self.subject.as_str())),
            ConfigErrorKind::TitleColorNotRgb => ("invalid title_color for field #", crate::numbers::decimal_chars(self.number), ": color must be #RRGGBB: ", chars_of(self.subject.as_str())),
            ConfigErrorKind::ValueColorMissingHash => ("invalid value_color for field #", crate::numbers::decimal_chars(self.number), ": color must start with #: ", chars_of(self.subject.as_str())),
            ConfigErrorKind::ValueColorNotRgb => ("invalid value_color for field #", crate::numbers::decimal_chars(self.number), ": color must be #RRGGBB: ", chars_of(self.subject.as_str())),
            ConfigErrorKind::GateInvalidKey => ("agent-config.microphone_delta_gate_field must use lowercase letters, digits, and underscores only: ", chars_of(self.subject.as_str()), "", Vec::new()),
            ConfigErrorKind::GateMissing => ("agent-config.microphone_delta_gate_field references missing field: ", chars_of(self.subject.as_str()), "", Vec::new()),
        };
        let mut out = chars_of(a);
        crate::text::append_chars(&mut out, &x);
        crate::numbers::push_str_chars(&mut out, b);
        crate::text::append_chars(&mut out, &y);
        string_of(&out)
    }
}

fn config_error(kind: ConfigErrorKind, number: u64, subject: &Vec<char>, detail: &Vec<char>) -> (r: AgentConfigError)
    ensures
        r@ == (kind, number, subject@, detail@),
{
    AgentConfigError { kind, number, subject: string_of(subject), detail: string_of(detail) }
}

// ---------------------------------------------------------------------------
// The fenced block
// ---------------------------------------------------------------------------

/// Why the fenced configuration block could not be taken out.
#[derive(Clone, Copy, Debug, PartialEq, Eq, Structural)]
pub enum BlockError {
    MoreThanOne,
    Missing,
    Unclosed,
}

impl BlockError {
    /// The message shown for this error.
    pub fn message(self) -> (r: String)
        ensures
            r@ == (match self {
                BlockError::MoreThanOne => "agent-instructions.md contains more than one ```agent-config block"@,
                BlockError::Missing => "agent-instructions.md must include one fenced ```agent-config block"@,
                BlockError::Unclosed => "agent-instructions.md has an unclosed ```agent-config block"@,
            }),
    {
        let s = match self {
            BlockError::MoreThanOne => "agent-instructions.md contains more than one ```agent-config block",
            BlockError::Missing => "agent-instructions.md must include one fenced ```agent-config block",
            BlockError::Unclosed => "agent-instructions.md has an unclosed ```agent-config block",
        };
        string_of(&chars_of(s))
    }
}

/// State of the block scan: configuration lines, instruction lines, inside
/// the block, block seen, block closed.
pub type BlockScan = (Seq<Seq<char>>, Seq<Seq<char>>, bool, bool, bool);

/// The block scan after the given lines, or the error that stopped it.
pub open spec fn block_scan(ls: Seq<Seq<char>>) -> Result<BlockScan, BlockError>
    decreases ls.len(),
{
    if ls.len() == 0 {
        Ok((Seq::empty(), Seq::empty(), false, false, false))
    } else {
        match block_scan(ls.drop_last()) {
            Err(e) => Err(e),
            Ok(st) => {
                let line = ls.last();
                let t = trim(line);
                if !st.2 && t == "```agent-config"@ {
                    if st.3 {
                        Err(BlockError::MoreThanOne)
                    } else {
                        Ok((st.0, st.1, true, true, st.4))
                    }
                } else if st.2 {
                    if t == "```"@ {
                        Ok((st.0, st.1, false, st.3, true))
                    } else {
                        Ok((st.0.push(line), st.1, st.2, st.3, st.4))
                    }
                } else {
                    Ok((st.0, st.1.push(line), st.2, st.3, st.4))
                }
            },
        }
    }
}

proof fn lemma_block_scan_err(ls: Seq<Seq<char>>, k: int)
    requires
        0 <= k <= ls.len(),
        block_scan(ls.take(k)) is Err,
    ensures
        block_scan(ls) == block_scan(ls.take(k)),
    decreases ls.len() - k,
{
    if k < ls.len() {
        assert(ls.take(k + 1).drop_last() =~= ls.take(k));
        assert(block_scan(ls.take(k + 1)) == block_scan(ls.take(k)));
        lemma_block_scan_err(ls, k + 1);
    } else {
        assert(ls.take(k) =~= ls);
    }
}

/// Lines joined with `\n`.
pub open spec fn joined_lines(ls: Seq<Seq<char>>) -> Seq<char>
    decreases ls.len(),
{
    if ls.len() == 0 {
        Seq::empty()
    } else if ls.len() == 1 {
        ls[0]
    } else {
        joined_lines(ls.drop_last()) + seq!['\n'] + ls.last()
    }
}

/// The configuration text and the remaining instructions of an
/// instructions file: exactly one closed fenced `agent-config` block is
/// required.
pub open spec fn extract_block_spec(markdown: Seq<char>) -> Result<(Seq<char>, Seq<char>), BlockError> {
    match block_scan(lines_of(markdown)) {
        Err(e) => Err(e),
        Ok(st) => if !st.3 {
            Err(BlockError::Missing)
        } else if !st.4 {
            Err(BlockError::Unclosed)
        } else {
            Ok((joined_lines(st.0), joined_lines(st.1)))
        },
    }
}

fn join_lines(ls: &Vec<Vec<char>>) -> (r: String)
    ensures
        r@ == joined_lines(seqs(ls@)),
{
    let mut out: Vec<char> = Vec::new();
    let mut i: usize = 0;
    while i < ls.len()
        invariant
            i <= ls.len(),
            out@ == joined_lines(seqs(ls@).take(i as int)),
        decreases ls.len() - i,
    {
        let ghost before = seqs(ls@).take(i as int);
        if i > 0 {
            out.push('\n');
        }
        crate::text::append_chars(&mut out, &ls[i]);
        i += 1;
        proof {
            let now = seqs(ls@).take(i as int);
            assert(now.drop_last() =~= before);
            if i == 1 {
                assert(out@ =~= now[0]);
            }
        }
    }
    assert(seqs(ls@).take(ls.len() as int) =~= seqs(ls@));
    string_of(&out)
}

/// Takes the fenced `agent-config` block out of the instructions; see
/// `extract_block_spec`.
pub fn extract_agent_config_block(markdown: &str) -> (r: Result<(String, String), BlockError>)
    ensures
        match r {
            Ok((config, instructions)) => extract_block_spec(markdown@) == Ok::<(Seq<char>, Seq<char>), BlockError>((config@, instructions@)),
            Err(e) => extract_block_spec(markdown@) == Err::<(Seq<char>, Seq<char>), BlockError>(e),
        },
{
    let text = chars_of(markdown);
    let lines = split_lines(&text);
    let mut config_lines: Vec<Vec<char>> = Vec::new();
    let mut instruction_lines: Vec<Vec<char>> = Vec::new();
    let mut in_config = false;
    let mut found = false;
    let mut closed = false;
    let mut i: usize = 0;
    assert(seqs(lines@).take(0) =~= Seq::<Seq<char>>::empty());
    assert(seqs(config_lines@) =~= Seq::<Seq<char>>::empty());
    assert(seqs(instruction_lines@) =~= Seq::<Seq<char>>::empty());
    while i < lines.len()
        invariant
            i <= lines.len(),
            seqs(lines@) == lines_of(markdown@),
            block_scan(seqs(lines@).take(i as int)) == Ok::<BlockScan, BlockError>(
                (seqs(config_lines@), seqs(instruction_lines@), in_config, found, closed),
            ),
        decreases lines.len() - i,
    {
        let ghost ls = seqs(lines@).take(i + 1);
        assert(ls.drop_last() =~= seqs(lines@).take(i as int));
        assert(ls.last() == lines@[i as int]@);
        let line = &lines[i];
        let t = trim_vec(line);
        if !in_config && chars_equal_str(&t, "```agent-config") {
            if found {
                proof {
                    assert(block_scan(ls) == Err::<BlockScan, BlockError>(BlockError::MoreThanOne));
                    lemma_block_scan_err(seqs(lines@), i + 1);
                    assert(block_scan(seqs(lines@)) == Err::<BlockScan, BlockError>(BlockError::MoreThanOne));
                }
                return Err(BlockError::MoreThanOne);
            }
            found = true;
            in_config = true;
        } else if in_config {
            if chars_equal_str(&t, "```") {
                in_config = false;
                closed = true;
            } else {
                let ghost before = seqs(config_lines@);
                config_lines.push(crate::text::copy_chars(line));
                assert(seqs(config_lines@) =~= before.push(line@));
            }
        } else {
            let ghost before = seqs(instruction_lines@);
            instruction_lines.push(crate::text::copy_chars(line));
            assert(seqs(instruction_lines@) =~= before.push(line@));
        }
        i += 1;
    }
    assert(seqs(lines@).take(lines.len() as int) =~= seqs(lines@));
    if !found {
        return Err(BlockError::Missing);
    }
    if !closed {
        return Err(BlockError::Unclosed);
    }
    Ok((join_lines(&config_lines), join_lines(&instruction_lines)))
}

// ---------------------------------------------------------------------------
// Colors
// ---------------------------------------------------------------------------

/// ASCII hexadecimal digits.
pub open spec fn is_hex_digit(c: char) -> bool {
    ('0' <= c && c <= '9') || ('a' <= c && c <= 'f') || ('A' <= c && c <= 'F')
}

/// The value of a hexadecimal digit.
pub open spec fn hex_value(c: char) -> int {
    if '0' <= c && c <= '9' {
        c as int - '0' as int
    } else if 'a' <= c && c <= 'f' {
        c as int - 'a' as int + 10
    } else {
        c as int - 'A' as int + 10
    }
}

/// Why a color is refused.
#[derive(Clone, Copy, Debug, PartialEq, Eq, Structural)]
pub enum ColorError {
    MissingHash,
    NotRgb,
}

/// A `#RRGGBB` color, surrounding whitespace ignored.
pub open spec fn color_spec(text: Seq<char>) -> Result<(u8, u8, u8), ColorError> {
    let v = trim(text);
    if v.len() == 0 || v[0] != '#' {
        Err(ColorError::MissingHash)
    } else if v.len() != 7 || !(forall|i: int| 1 <= i < 7 ==> is_hex_digit(#[trigger] v[i])) {
        Err(ColorError::NotRgb)
    } else {
        Ok((
            (16 * hex_value(v[1]) + hex_value(v[2])) as u8,
            (16 * hex_value(v[3]) + hex_value(v[4])) as u8,
            (16 * hex_value(v[5]) + hex_value(v[6])) as u8,
        ))
    }
}

fn hex_digit_value(c: char) -> (r: u8)
    requires
        is_hex_digit(c),
    ensures
        r as int == hex_value(c),
        r < 16,
{
    let code = c as u32;
    if '0' <= c && c <= '9' {
        (code - ('0' as u32)) as u8
    } else if 'a' <= c && c <= 'f' {
        (code - ('a' as u32) + 10) as u8
    } else {
        (code - ('A' as u32) + 10) as u8
    }
}

/// Parses a `#RRGGBB` color; see `color_spec`.
pub fn parse_hex_color(text: &str) -> (r: Result<(u8, u8, u8), ColorError>)
    ensures
        r == color_spec(text@),
{
    let v = trim_vec(&chars_of(text));
    if v.len() == 0 || v[0] != '#' {
        return Err(ColorError::MissingHash);
    }
    if v.len() != 7 {
        return Err(ColorError::NotRgb);
    }
    let mut i: usize = 1;
    while i < 7
        invariant
            1 <= i <= 7,
            v@.len() == 7,
            v@ == trim(text@),
            v@[0] == '#',
            forall|j: int| 1 <= j < i ==> is_hex_digit(#[trigger] v@[j]),
        decreases 7 - i,
    {
        let c = v[i];
        if !(('0' <= c && c <= '9') || ('a' <= c && c <= 'f') || ('A' <= c && c <= 'F')) {
            assert(!is_hex_digit(v@[i as int]));
            return Err(ColorError::NotRgb);
        }
        i += 1;
    }
    let r = 16 * hex_digit_value(v[1]) + hex_digit_value(v[2]);
    let g = 16 * hex_digit_value(v[3]) + hex_digit_value(v[4]);
    let b = 16 * hex_digit_value(v[5]) + hex_digit_value(v[6]);
    Ok((r, g, b))
}

// ---------------------------------------------------------------------------
// Field validation
// ---------------------------------------------------------------------------

/// Lower-case ASCII letters, digits and underscores only.
pub open spec fn is_key_spec(text: Seq<char>) -> bool {
    forall|i: int| 0 <= i < text.len() ==> (('a' <= #[trigger] text[i] && text[i] <= 'z') || ('0' <= text[i] && text[i] <= '9') || text[i] == '_')
}

/// Whether a text is a valid field key; see `is_key_spec`.
pub fn is_agent_config_key(text: &str) -> (r: bool)
    ensures
        r == is_key_spec(text@),
{
    let v = chars_of(text);
    let mut i: usize = 0;
    while i < v.len()
        invariant
            i <= v.len(),
            v@ == text@,
            forall|j: int| 0 <= j < i ==> (('a' <= #[trigger] v@[j] && v@[j] <= 'z') || ('0' <= v@[j] && v@[j] <= '9') || v@[j] == '_'),
        decreases v.len() - i,
    {
        let c = v[i];
        if !(('a' <= c && c <= 'z') || ('0' <= c && c <= '9') || c == '_') {
            return false;
        }
        i += 1;
    }
    true
}

/// How a field is rendered: `text` when unset, otherwise the trimmed,
/// lower-cased value, which must be `text` or `list`.
pub open spec fn render_spec(value: Option<Seq<char>>) -> Result<AgentFieldRender, Seq<char>> {
    let v = lower_seq(trim(match value {
        Some(s) => s,
        None => "text"@,
    }));
    if v == "text"@ {
        Ok(AgentFieldRender::Text)
    } else if v == "list"@ {
        Ok(AgentFieldRender::List)
    } else {
        Err(v)
    }
}

/// The optional text of an optional string.
pub open spec fn opt_string_view(o: Option<String>) -> Option<Seq<char>> {
    match o {
        Some(s) => Some(s@),
        None => None,
    }
}

/// Parses a field's render setting; the error holds the refused value.
pub fn parse_agent_field_render(value: Option<&str>) -> (r: Result<AgentFieldRender, String>)
    ensures
        match r {
            Ok(x) => render_spec(match value { Some(s) => Some(s@), None => None }) == Ok::<AgentFieldRender, Seq<char>>(x),
            Err(e) => render_spec(match value { Some(s) => Some(s@), None => None }) == Err::<AgentFieldRender, Seq<char>>(e@),
        },
{
    let raw = match value {
        Some(s) => chars_of(s),
        None => chars_of("text"),
    };
    let v = to_ascii_lowercase(&trim_vec(&raw));
    if chars_equal_str(&v, "text") {
        Ok(AgentFieldRender::Text)
    } else if chars_equal_str(&v, "list") {
        Ok(AgentFieldRender::List)
    } else {
        Err(string_of(&v))
    }
}

/// The error kind and detail of a schema that does not suit its field, if
/// any: a string `type` is required, `string` or `array`, matching the
/// render, and an array's `items` must have the string `type` `string`.
pub open spec fn schema_check_spec(schema: JsonModel, render: AgentFieldRender) -> Option<(ConfigErrorKind, Seq<char>)> {
    match opt_str_spec(get_spec(schema, "type"@)) {
        None => Some((ConfigErrorKind::SchemaTypeMissing, Seq::empty())),
        Some(t) => if t != "string"@ && t != "array"@ {
            Some((ConfigErrorKind::SchemaTypeUnsupported, t))
        } else if render == AgentFieldRender::Text && t != "string"@ {
            Some((ConfigErrorKind::TextNeedsString, t))
        } else if render == AgentFieldRender::List && t != "array"@ {
            Some((ConfigErrorKind::ListNeedsArray, t))
        } else if t == "array"@ {
            match get_spec(schema, "items"@) {
                None => Some((ConfigErrorKind::ItemsMissing, Seq::empty())),
                Some(items) => match opt_str_spec(get_spec(items, "type"@)) {
                    None => Some((ConfigErrorKind::ItemTypeMissing, Seq::empty())),
                    Some(it) => if it != "string"@ {
                        Some((ConfigErrorKind::ItemTypeNotString, it))
                    } else {
                        None
                    },
                },
            }
        } else {
            None
        },
    }
}

fn string_member_text(v: &JsonValue, key: &str) -> (r: Option<Vec<char>>)
    ensures
        match r {
            Some(t) => opt_str_spec(get_spec(v@, key@)) == Some(t@),
            None => opt_str_spec(get_spec(v@, key@)) is None,
        },
{
    match v.get(key) {
        Some(m) => match m.as_str() {
            Some(s) => Some(chars_of(s.as_str())),
            None => None,
        },
        None => None,
    }
}

/// Checks a field schema against its render; see `schema_check_spec`.
pub fn validate_agent_field_schema(schema: &JsonValue, render: AgentFieldRender) -> (r: Option<(ConfigErrorKind, String)>)
    ensures
        match r {
            Some((k, d)) => schema_check_spec(schema@, render) == Some((k, d@)),
            None => schema_check_spec(schema@, render) is None,
        },
{
    proof {
        reveal_strlit("string");
        reveal_strlit("array");
    }
    let t = match string_member_text(schema, "type") {
        None => return Some((ConfigErrorKind::SchemaTypeMissing, String::new())),
        Some(t) => t,
    };
    let is_string = chars_equal_str(&t, "string");
    let is_array = chars_equal_str(&t, "array");
    if !is_string && !is_array {
        return Some((ConfigErrorKind::SchemaTypeUnsupported, string_of(&t)));
    }
    match render {
        AgentFieldRender::Text => {
            if !is_string {
                return Some((ConfigErrorKind::TextNeedsString, string_of(&t)));
            }
        },
        AgentFieldRender::List => {
            if !is_array {
                return Some((ConfigErrorKind::ListNeedsArray, string_of(&t)));
            }
        },
    }
    if is_array {
        let items = match schema.get("items") {
            None => return Some((ConfigErrorKind::ItemsMissing, String::new())),
            Some(items) => items,
        };
        let it = match string_member_text(items, "type") {
            None => return Some((ConfigErrorKind::ItemTypeMissing, String::new())),
            Some(it) => it,
        };
        if !chars_equal_str(&it, "string") {
            return Some((ConfigErrorKind::ItemTypeNotString, string_of(&it)));
        }
    }
    None
}

/// The keys of a list of field models.
pub open spec fn model_keys(fs: Seq<AgentFieldModel>) -> Seq<Seq<char>> {
    fs.map_values(|f: AgentFieldModel| f.key)
}

/// The validated form of field number `index` (from 0), given the fields
/// validated before it.
pub open spec fn field_spec(raw: RawAgentFieldConfig, index: u64, done: Seq<AgentFieldModel>) -> Result<AgentFieldModel, ConfigErrorModel> {
    let key = trim(raw.key@);
    let title = trim(raw.title@);
    if key.len() == 0 {
        Err((ConfigErrorKind::EmptyKey, index, Seq::empty(), Seq::empty()))
    } else if !is_key_spec(key) {
        Err((ConfigErrorKind::InvalidKey, index, key, Seq::empty()))
    } else if model_keys(done).contains(key) {
        Err((ConfigErrorKind::DuplicateKey, index, key, Seq::empty()))
    } else if title.len() == 0 {
        Err((ConfigErrorKind::EmptyTitle, index, key, Seq::empty()))
    } else {
        match render_spec(opt_string_view(raw.render)) {
            Err(other) => Err((ConfigErrorKind::UnsupportedRender, index, key, other)),
            Ok(render) => match schema_check_spec(raw.schema@, render) {
                Some((kind, detail)) => Err((kind, index, key, detail)),
                None => match color_spec(raw.title_color@) {
                    Err(ColorError::MissingHash) => Err((ConfigErrorKind::TitleColorMissingHash, (index + 1) as u64, trim(raw.title_color@), Seq::empty())),
                    Err(ColorError::NotRgb) => Err((ConfigErrorKind::TitleColorNotRgb, (index + 1) as u64, trim(raw.title_color@), Seq::empty())),
                    Ok(title_rgb) => match color_spec(raw.value_color@) {
                        Err(ColorError::MissingHash) => Err((ConfigErrorKind::ValueColorMissingHash, (index + 1) as u64, trim(raw.value_color@), Seq::empty())),
                        Err(ColorError::NotRgb) => Err((ConfigErrorKind::ValueColorNotRgb, (index + 1) as u64, trim(raw.value_color@), Seq::empty())),
                        Ok(value_rgb) => Ok(AgentFieldModel {
                            key,
                            title,
                            render,
                            empty: match raw.empty {
                                Some(e) => e@,
                                None => "none"@,
                            },
                            title_rgb,
                            value_rgb,
                            min_display_secs: match raw.min_display_seconds {
                                Some(s) => s,
                                None => 0,
                            },
                            preserve_on_empty: raw.preserve_on_empty,
                            schema: raw.schema@,
                        }),
                    },
                },
            },
        }
    }
}

/// The first `n` fields validated in order, or the first error.
pub open spec fn fields_spec(raws: Seq<RawAgentFieldConfig>, n: nat) -> Result<Seq<AgentFieldModel>, ConfigErrorModel>
    decreases n,
{
    if n == 0 || n > raws.len() {
        Ok(Seq::empty())
    } else {
        match fields_spec(raws, (n - 1) as nat) {
            Err(e) => Err(e),
            Ok(done) => match field_spec(raws[n - 1], (n - 1) as u64, done) {
                Err(e) => Err(e),
                Ok(f) => Ok(done.push(f)),
            },
        }
    }
}

proof fn lemma_fields_err(raws: Seq<RawAgentFieldConfig>, k: nat, n: nat)
    requires
        k <= n <= raws.len(),
        fields_spec(raws, k) is Err,
    ensures
        fields_spec(raws, n) == fields_spec(raws, k),
    decreases n - k,
{
    if n > k {
        lemma_fields_err(raws, k, (n - 1) as nat);
    }
}

/// The microphone gate field: trimmed, unless blank.
pub open spec fn gate_spec(field: Option<Seq<char>>) -> Option<Seq<char>> {
    match field {
        Some(f) => if trim(f).len() > 0 { Some(trim(f)) } else { None },
        None => None,
    }
}

/// A validated configuration: at least one field, an output budget from 1 to
/// 4096 tokens (220 when unset), valid fields, and a gate field that is a
/// valid key of one of them.
pub open spec fn parse_spec(raw: RawAgentInstructionsConfig) -> Result<(u64, Option<Seq<char>>, Seq<AgentFieldModel>), ConfigErrorModel> {
    let tokens = match raw.max_output_tokens {
        Some(t) => t,
        None => DEFAULT_MAX_OUTPUT_TOKENS,
    };
    if raw.fields.len() == 0 {
        Err((ConfigErrorKind::NoFields, 0, Seq::empty(), Seq::empty()))
    } else if !(1 <= tokens <= 4096) {
        Err((ConfigErrorKind::MaxOutputTokens, tokens, Seq::empty(), Seq::empty()))
    } else {
        match fields_spec(raw.fields@, raw.fields@.len()) {
            Err(e) => Err(e),
            Ok(fields) => {
                let gate = gate_spec(opt_string_view(raw.microphone_delta_gate_field));
                match gate {
                    Some(g) => if !is_key_spec(g) {
                        Err((ConfigErrorKind::GateInvalidKey, 0, g, Seq::empty()))
                    } else if !model_keys(fields).contains(g) {
                        Err((ConfigErrorKind::GateMissing, 0, g, Seq::empty()))
                    } else {
                        Ok((tokens, gate, fields))
                    },
                    None => Ok((tokens, gate, fields)),
                }
            },
        }
    }
}

fn keys_contain(fields: &Vec<AgentFieldConfig>, key: &Vec<char>) -> (r: bool)
    ensures
        r == model_keys(fields_view(fields@)).contains(key@),
{
    let mut i: usize = 0;
    while i < fields.len()
        invariant
            i <= fields.len(),
            forall|j: int| 0 <= j < i ==> (#[trigger] fields@[j]).key@ != key@,
        decreases fields.len() - i,
    {
        let k = chars_of(fields[i].key.as_str());
        if chars_equal(&k, key) {
            assert(model_keys(fields_view(fields@))[i as int] == key@);
            return true;
        }
        i += 1;
    }
    assert forall|j: int| 0 <= j < model_keys(fields_view(fields@)).len() implies model_keys(
        fields_view(fields@),
    )[j] != key@ by {
        assert(model_keys(fields_view(fields@))[j] == fields@[j].key@);
    }
    false
}

fn color_error(title: bool, e: ColorError, number: u64, value: &String) -> (r: AgentConfigError)
    ensures
        r@ == ((match (title, e) {
            (true, ColorError::MissingHash) => ConfigErrorKind::TitleColorMissingHash,
            (true, ColorError::NotRgb) => ConfigErrorKind::TitleColorNotRgb,
            (false, ColorError::MissingHash) => ConfigErrorKind::ValueColorMissingHash,
            (false, ColorError::NotRgb) => ConfigErrorKind::ValueColorNotRgb,
        }), number, trim(value@), Seq::<char>::empty()),
{
    let kind = match (title, e) {
        (true, ColorError::MissingHash) => ConfigErrorKind::TitleColorMissingHash,
        (true, ColorError::NotRgb) => ConfigErrorKind::TitleColorNotRgb,
        (false, ColorError::MissingHash) => ConfigErrorKind::ValueColorMissingHash,
        (false, ColorError::NotRgb) => ConfigErrorKind::ValueColorNotRgb,
    };
    config_error(kind, number, &trim_vec(&chars_of(value.as_str())), &Vec::new())
}

fn validate_field(raw: &RawAgentFieldConfig, index: usize, done: &Vec<AgentFieldConfig>) -> (r: Result<AgentFieldConfig, AgentConfigError>)
    requires
        index < u64::MAX,
    ensures
        match r {
            Ok(f) => field_spec(*raw, index as u64, fields_view(done@)) == Ok::<AgentFieldModel, ConfigErrorModel>(f@),
            Err(e) => field_spec(*raw, index as u64, fields_view(done@)) == Err::<AgentFieldModel, ConfigErrorModel>(e@),
        },
{
    let number = index as u64;
    let none: Vec<char> = Vec::new();
    let key = trim_vec(&chars_of(raw.key.as_str()));
    if key.len() == 0 {
        return Err(config_error(ConfigErrorKind::EmptyKey, number, &none, &none));
    }
    let key_s = string_of(&key);
    if !is_agent_config_key(key_s.as_str()) {
        return Err(config_error(ConfigErrorKind::InvalidKey, number, &key, &none));
    }
    if keys_contain(done, &key) {
        return Err(config_error(ConfigErrorKind::DuplicateKey, number, &key, &none));
    }
    let title = trim_vec(&chars_of(raw.title.as_str()));
    if title.len() == 0 {
        return Err(config_error(ConfigErrorKind::EmptyTitle, number, &key, &none));
    }
    let render = match &raw.render {
        Some(r) => parse_agent_field_render(Some(r.as_str())),
        None => parse_agent_field_render(None),
    };
    let render = match render {
        Ok(x) => x,
        Err(other) => {
            return Err(config_error(ConfigErrorKind::UnsupportedRender, number, &key, &chars_of(other.as_str())));
        },
    };
    match validate_agent_field_schema(&raw.schema, render) {
        Some((kind, detail)) => {
            return Err(config_error(kind, number, &key, &chars_of(detail.as_str())));
        },
        None => {},
    }
    let title_rgb = match parse_hex_color(raw.title_color.as_str()) {
        Ok(c) => c,
        Err(e) => {
            return Err(color_error(true, e, number + 1, &raw.title_color));
        },
    };
    let value_rgb = match parse_hex_color(raw.value_color.as_str()) {
        Ok(c) => c,
        Err(e) => {
            return Err(color_error(false, e, number + 1, &raw.value_color));
        },
    };
    let empty = match &raw.empty {
        Some(e) => e.clone(),
        None => string_of(&chars_of("none")),
    };
    Ok(AgentFieldConfig {
        key: key_s,
        title: string_of(&title),
        render,
        empty,
        title_rgb,
        value_rgb,
        min_display_secs: match raw.min_display_seconds {
            Some(s) => s,
            None => 0,
        },
        preserve_on_empty: raw.preserve_on_empty,
        schema: clone_value(&raw.schema),
    })
}

/// Validates a declared configuration; see `parse_spec`.
pub fn parse_agent_config(raw: &RawAgentInstructionsConfig) -> (r: Result<ParsedAgentConfig, AgentConfigError>)
    ensures
        match r {
            Ok(p) => parse_spec(*raw) == Ok::<(u64, Option<Seq<char>>, Seq<AgentFieldModel>), ConfigErrorModel>(
                (p.max_output_tokens, opt_string_view(p.microphone_delta_gate_field), fields_view(p.fields@)),
            ),
            Err(e) => parse_spec(*raw) == Err::<(u64, Option<Seq<char>>, Seq<AgentFieldModel>), ConfigErrorModel>(e@),
        },
{
    let none: Vec<char> = Vec::new();
    if raw.fields.len() == 0 {
        return Err(config_error(ConfigErrorKind::NoFields, 0, &none, &none));
    }
    let tokens = match raw.max_output_tokens {
        Some(t) => t,
        None => DEFAULT_MAX_OUTPUT_TOKENS,
    };
    if !(1 <= tokens && tokens <= 4096) {
        return Err(config_error(ConfigErrorKind::MaxOutputTokens, tokens, &none, &none));
    }
    let mut fields: Vec<AgentFieldConfig> = Vec::new();
    let mut i: usize = 0;
    assert(fields_view(fields@) =~= Seq::<AgentFieldModel>::empty());
    while i < raw.fields.len()
        invariant
            i <= raw.fields.len(),
            raw.fields.len() > 0,
            tokens == (match raw.max_output_tokens {
                Some(t) => t,
                None => DEFAULT_MAX_OUTPUT_TOKENS,
            }),
            1 <= tokens <= 4096,
            fields_spec(raw.fields@, i as nat) == Ok::<Seq<AgentFieldModel>, ConfigErrorModel>(fields_view(fields@)),
        decreases raw.fields.len() - i,
    {
        match validate_field(&raw.fields[i], i, &fields) {
            Err(e) => {
                proof {
                    lemma_fields_err(raw.fields@, (i + 1) as nat, raw.fields@.len());
                }
                return Err(e);
            },
            Ok(f) => {
                let ghost before = fields_view(fields@);
                fields.push(f);
                assert(fields_view(fields@) =~= before.push(fields@.last()@));
            },
        }
        i += 1;
    }
    let gate = match &raw.microphone_delta_gate_field {
        Some(g) => {
            let t = trim_vec(&chars_of(g.as_str()));
            if t.len() > 0 {
                Some(t)
            } else {
                None
            }
        },
        None => None,
    };
    match gate {
        Some(g) => {
            let gs = string_of(&g);
            if !is_agent_config_key(gs.as_str()) {
                return Err(config_error(ConfigErrorKind::GateInvalidKey, 0, &g, &none));
            }
            if !keys_contain(&fields, &g) {
                return Err(config_error(ConfigErrorKind::GateMissing, 0, &g, &none));
            }
            Ok(ParsedAgentConfig { max_output_tokens: tokens, microphone_delta_gate_field: Some(gs), fields })
        },
        None => Ok(ParsedAgentConfig { max_output_tokens: tokens, microphone_delta_gate_field: None, fields }),
    }
}

} // verus!
