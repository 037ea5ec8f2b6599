//! The command line of a product entry point, and the names of the files
//! the session leaves in its temporary folder.
use vstd::prelude::*;

use crate::modes::AppMode;
use crate::normalize::language_argument_spec;
use crate::numbers::{parse_isize_spec, parse_u64_spec};
use crate::text::{chars_of, lower_seq, string_of, trim};

verus! {

/// Fade time when none is given, in seconds.
pub const DEFAULT_TEXT_FADE_SECONDS: u64 = 70;

/// An option that takes a value.
#[derive(Clone, Copy, Debug, PartialEq, Eq, Structural)]
pub enum CliFlag {
    Model,
    TempDir,
    AgentRoot,
    TerminalWindowHandle,
    RestartState,
    Mode,
    FadeSeconds,
    Language,
    AgentModel,
}

/// Why a command line was refused.
#[derive(Clone, Copy, Debug, PartialEq, Eq, Structural)]
pub enum CliErrorKind {
    MissingValue(CliFlag),
    InvalidWindowHandle,
    InvalidMode,
    ModeUnavailable,
    InvalidFadeSeconds,
    InvalidLanguage,
    UnknownArgument,
    MissingModel,
}

/// A refused command line: why, and the offending text where there is one.
pub struct CliError {
    pub kind: CliErrorKind,
    pub detail: String,
}

/// What the command line asks for, as plain values.
pub struct CliModel {
    pub mode: AppMode,
    pub model_path: Option<Seq<char>>,
    pub temp_dir: Option<Seq<char>>,
    pub agent_root: Option<Seq<char>>,
    pub terminal_window_handle: Option<isize>,
    pub restart_state_path: Option<Seq<char>>,
    pub fade_seconds: u64,
    pub fade_seconds_provided: bool,
    pub language: Option<Seq<char>>,
    pub language_provided: bool,
    pub agent_model: Seq<char>,
    pub agent_model_provided: bool,
    pub agent_disabled: bool,
}

/// What the command line asks for. Without `--temp-dir`, the temporary
/// folder is `default_temp_dir` of the model path.
pub struct CliArgs {
    pub mode: AppMode,
    pub model_path: String,
    pub temp_dir: String,
    pub agent_root: Option<String>,
    pub terminal_window_handle: Option<isize>,
    pub restart_state_path: Option<String>,
    pub fade_seconds: u64,
    pub fade_seconds_provided: bool,
    pub language: Option<String>,
    pub language_provided: bool,
    pub agent_model: String,
    pub agent_model_provided: bool,
    pub agent_disabled: bool,
}

/// What parsing a command line gave.
pub enum ParsedArgs {
    /// Start with these arguments.
    Run(CliArgs),
    /// Print the usage line and stop.
    Help,
}

/// The text of an optional string.
pub open spec fn opt_view(o: Option<String>) -> Option<Seq<char>> {
    match o {
        Some(s) => Some(s@),
        None => None,
    }
}

impl CliArgs {
    /// The arguments as plain values, with the temporary folder as the
    /// command line gave it (`temp_dir`).
    pub open spec fn model(self, temp_dir: Option<Seq<char>>) -> CliModel {
        CliModel {
            mode: self.mode,
            model_path: Some(self.model_path@),
            temp_dir,
            agent_root: opt_view(self.agent_root),
            terminal_window_handle: self.terminal_window_handle,
            restart_state_path: opt_view(self.restart_state_path),
            fade_seconds: self.fade_seconds,
            fade_seconds_provided: self.fade_seconds_provided,
            language: opt_view(self.language),
            language_provided: self.language_provided,
            agent_model: self.agent_model@,
            agent_model_provided: self.agent_model_provided,
            agent_disabled: self.agent_disabled,
        }
    }
}

/// The outcome of a command line, as plain values.
pub enum CliOutcome {
    Run(CliModel),
    Help,
    Fail(CliErrorKind, Seq<char>),
}

/// The product named by `--mode`.
pub open spec fn app_mode_spec(value: Seq<char>) -> Option<AppMode> {
    let v = lower_seq(trim(value));
    if v == "typing"@ || v == "enhanced-typing"@ || v == "enchanted-typing"@ {
        Some(AppMode::EnhancedTyping)
    } else if v == "transcription"@ || v == "enchanted-transcription"@ {
        Some(AppMode::Transcription)
    } else {
        None
    }
}

/// The fade time given by `--fade-seconds`: a number from 5 to 180.
pub open spec fn fade_seconds_spec(value: Seq<char>) -> Option<u64> {
    match parse_u64_spec(value) {
        Some(n) => if 5 <= n <= 180 { Some(n) } else { None },
        None => None,
    }
}

/// The window handle given by `--terminal-window-handle`: none for blank,
/// `0` or a negative number; an error for anything but an integer.
pub open spec fn window_handle_spec(value: Seq<char>) -> Result<Option<isize>, ()> {
    let t = trim(value);
    if t.len() == 0 || t == "0"@ {
        Ok(None)
    } else {
        match parse_isize_spec(t) {
            Some(h) => if h <= 0 { Ok(None) } else { Ok(Some(h)) },
            None => Err(()),
        }
    }
}

/// The option that an argument names, if it takes a value.
pub open spec fn flag_of(a: Seq<char>) -> Option<CliFlag> {
    if a == "--model"@ {
        Some(CliFlag::Model)
    } else if a == "--temp-dir"@ {
        Some(CliFlag::TempDir)
    } else if a == "--agent-root"@ {
        Some(CliFlag::AgentRoot)
    } else if a == "--terminal-window-handle"@ {
        Some(CliFlag::TerminalWindowHandle)
    } else if a == "--restart-state"@ {
        Some(CliFlag::RestartState)
    } else if a == "--mode"@ {
        Some(CliFlag::Mode)
    } else if a == "--fade-seconds"@ {
        Some(CliFlag::FadeSeconds)
    } else if a == "--language"@ {
        Some(CliFlag::Language)
    } else if a == "--agent-model"@ {
        Some(CliFlag::AgentModel)
    } else {
        None
    }
}

/// The arguments after taking `value` for `flag`, or why it is refused.
pub open spec fn take_value(acc: CliModel, flag: CliFlag, value: Seq<char>, default_mode: AppMode) -> Result<CliModel, (CliErrorKind, Seq<char>)> {
    match flag {
        CliFlag::Model => Ok(CliModel { model_path: Some(value), ..acc }),
        CliFlag::TempDir => Ok(CliModel { temp_dir: Some(value), ..acc }),
        CliFlag::AgentRoot => Ok(CliModel { agent_root: Some(value), ..acc }),
        CliFlag::TerminalWindowHandle => match window_handle_spec(value) {
            Ok(h) => Ok(CliModel { terminal_window_handle: h, ..acc }),
            Err(_) => Err((CliErrorKind::InvalidWindowHandle, trim(value))),
        },
        CliFlag::RestartState => Ok(CliModel { restart_state_path: Some(value), ..acc }),
        CliFlag::Mode => match app_mode_spec(value) {
            None => Err((CliErrorKind::InvalidMode, lower_seq(trim(value)))),
            Some(m) => if m != default_mode {
                Err((CliErrorKind::ModeUnavailable, trim(value)))
            } else {
                Ok(CliModel { mode: m, ..acc })
            },
        },
        CliFlag::FadeSeconds => match fade_seconds_spec(value) {
            Some(n) => Ok(CliModel { fade_seconds: n, fade_seconds_provided: true, ..acc }),
            None => Err((CliErrorKind::InvalidFadeSeconds, Seq::empty())),
        },
        CliFlag::Language => match language_argument_spec(value) {
            Ok(l) => Ok(CliModel { language: l, language_provided: true, ..acc }),
            Err(_) => Err((CliErrorKind::InvalidLanguage, Seq::empty())),
        },
        CliFlag::AgentModel => Ok(CliModel { agent_model: value, agent_model_provided: true, ..acc }),
    }
}

/// Reads the arguments from `i` on into `acc`, left to right.
pub open spec fn cli_scan(args: Seq<Seq<char>>, i: int, acc: CliModel, default_mode: AppMode) -> CliOutcome
    decreases args.len() - i,
{
    if i < 0 || i >= args.len() {
        if acc.model_path is None {
            CliOutcome::Fail(CliErrorKind::MissingModel, Seq::empty())
        } else {
            CliOutcome::Run(acc)
        }
    } else {
        let a = args[i];
        match flag_of(a) {
            Some(flag) => if i + 1 >= args.len() {
                CliOutcome::Fail(CliErrorKind::MissingValue(flag), Seq::empty())
            } else {
                match take_value(acc, flag, args[i + 1], default_mode) {
                    Ok(next) => cli_scan(args, i + 2, next, default_mode),
                    Err((kind, detail)) => CliOutcome::Fail(kind, detail),
                }
            },
            None => if a == "--agent-disabled"@ {
                cli_scan(args, i + 1, CliModel { agent_disabled: true, ..acc }, default_mode)
            } else if a == "--help"@ || a == "-h"@ {
                CliOutcome::Help
            } else {
                CliOutcome::Fail(CliErrorKind::UnknownArgument, a)
            },
        }
    }
}

/// What nothing on the command line means.
pub open spec fn initial_cli(default_mode: AppMode) -> CliModel {
    CliModel {
        mode: default_mode,
        model_path: None,
        temp_dir: None,
        agent_root: None,
        terminal_window_handle: None,
        restart_state_path: None,
        fade_seconds: DEFAULT_TEXT_FADE_SECONDS,
        fade_seconds_provided: false,
        language: None,
        language_provided: false,
        agent_model: "gpt-5.6-terra"@,
        agent_model_provided: false,
        agent_disabled: false,
    }
}

/// The texts of the arguments.
pub open spec fn arg_views(args: Seq<String>) -> Seq<Seq<char>> {
    args.map_values(|a: String| a@)
}

/// The message of a refused command line.
pub open spec fn cli_message(kind: CliErrorKind, detail: Seq<char>) -> Seq<char> {
    match kind {
        CliErrorKind::MissingValue(flag) => match flag {
            CliFlag::Model => "--model requires a model path"@,
            CliFlag::TempDir => "--temp-dir requires a directory path"@,
            CliFlag::AgentRoot => "--agent-root requires a directory path"@,
            CliFlag::TerminalWindowHandle => "--terminal-window-handle requires a window handle"@,
            CliFlag::RestartState => "--restart-state requires a file path"@,
            CliFlag::Mode => "--mode requires transcription or enhanced-typing"@,
            CliFlag::FadeSeconds => "--fade-seconds requires a number"@,
            CliFlag::Language => "--language requires a language code or auto"@,
            CliFlag::AgentModel => "--agent-model requires a model name"@,
        },
        CliErrorKind::InvalidWindowHandle => "invalid terminal window handle: "@ + detail,
        CliErrorKind::InvalidMode => "--mode must be transcription or enhanced-typing, got "@ + detail,
        CliErrorKind::ModeUnavailable => detail + " cannot start through this product entrypoint"@,
        CliErrorKind::InvalidFadeSeconds => "fade seconds must be a number from 5 to 180"@,
        CliErrorKind::InvalidLanguage => "language must be a Whisper language code or auto"@,
        CliErrorKind::UnknownArgument => "unknown argument: "@ + detail,
        CliErrorKind::MissingModel => "missing --model <path>"@,
    }
}

impl CliError {
    /// The message shown for the refusal.
    pub fn message(&self) -> (r: String)
        ensures
            r@ == cli_message(self.kind, self.detail@),
    {
        let detail = chars_of(self.detail.as_str());
        let (head, tail) = match self.kind {
            CliErrorKind::MissingValue(flag) => (
                match flag {
                    CliFlag::Model => chars_of("--model requires a model path"),
                    CliFlag::TempDir => chars_of("--temp-dir requires a directory path"),
                    CliFlag::AgentRoot => chars_of("--agent-root requires a directory path"),
                    CliFlag::TerminalWindowHandle => chars_of("--terminal-window-handle requires a window handle"),
                    CliFlag::RestartState => chars_of("--restart-state requires a file path"),
                    CliFlag::Mode => chars_of("--mode requires transcription or enhanced-typing"),
                    CliFlag::FadeSeconds => chars_of("--fade-seconds requires a number"),
                    CliFlag::Language => chars_of("--language requires a language code or auto"),
                    CliFlag::AgentModel => chars_of("--agent-model requires a model name"),
                },
                Vec::new(),
            ),
            CliErrorKind::InvalidWindowHandle => (chars_of("invalid terminal window handle: "), detail),
            CliErrorKind::InvalidMode => (chars_of("--mode must be transcription or enhanced-typing, got "), detail),
            CliErrorKind::ModeUnavailable => (detail, chars_of(" cannot start through this product entrypoint")),
            CliErrorKind::InvalidFadeSeconds => (chars_of("fade seconds must be a number from 5 to 180"), Vec::new()),
            CliErrorKind::InvalidLanguage => (chars_of("language must be a Whisper language code or auto"), Vec::new()),
            CliErrorKind::UnknownArgument => (chars_of("unknown argument: "), detail),
            CliErrorKind::MissingModel => (chars_of("missing --model <path>"), Vec::new()),
        };
        let mut out = head;
        crate::text::append_chars(&mut out, &tail);
        string_of(&out)
    }
}

/// Parses `--mode`; see `app_mode_spec`. The error carries the value,
/// trimmed and lower-cased.
pub fn parse_app_mode(value: &str) -> (r: Result<AppMode, CliError>)
    ensures
        match r {
            Ok(m) => app_mode_spec(value@) == Some(m),
            Err(e) => app_mode_spec(value@) is None && e.kind == CliErrorKind::InvalidMode && e.detail@ == lower_seq(trim(value@)),
        },
{
    let v = crate::text::to_ascii_lowercase(&crate::text::trim_vec(&chars_of(value)));
    if crate::normalize::is_text(&v, "typing") || crate::normalize::is_text(&v, "enhanced-typing")
        || crate::normalize::is_text(&v, "enchanted-typing") {
        Ok(AppMode::EnhancedTyping)
    } else if crate::normalize::is_text(&v, "transcription") || crate::normalize::is_text(&v, "enchanted-transcription") {
        Ok(AppMode::Transcription)
    } else {
        Err(CliError { kind: CliErrorKind::InvalidMode, detail: string_of(&v) })
    }
}

/// Parses `--fade-seconds`; see `fade_seconds_spec`.
pub fn parse_fade_seconds(value: &str) -> (r: Option<u64>)
    ensures
        r == fade_seconds_spec(value@),
{
    match crate::numbers::parse_u64(value) {
        Some(n) => if 5 <= n && n <= 180 { Some(n) } else { None },
        None => None,
    }
}

/// Parses `--terminal-window-handle`; see `window_handle_spec`. The error
/// carries the trimmed value.
pub fn parse_terminal_window_handle(value: &str) -> (r: Result<Option<isize>, CliError>)
    ensures
        match r {
            Ok(h) => window_handle_spec(value@) == Ok::<Option<isize>, ()>(h),
            Err(e) => window_handle_spec(value@) is Err && e.kind == CliErrorKind::InvalidWindowHandle && e.detail@ == trim(value@),
        },
{
    let t = crate::text::trim_vec(&chars_of(value));
    if t.len() == 0 || crate::normalize::is_text(&t, "0") {
        return Ok(None);
    }
    let text = string_of(&t);
    match crate::numbers::parse_isize(text.as_str()) {
        Some(h) => if h <= 0 { Ok(None) } else { Ok(Some(h)) },
        None => Err(CliError { kind: CliErrorKind::InvalidWindowHandle, detail: text }),
    }
}

fn flag_of_exec(a: &str) -> (r: Option<CliFlag>)
    ensures
        r == flag_of(a@),
{
    let v = chars_of(a);
    if crate::normalize::is_text(&v, "--model") {
        Some(CliFlag::Model)
    } else if crate::normalize::is_text(&v, "--temp-dir") {
        Some(CliFlag::TempDir)
    } else if crate::normalize::is_text(&v, "--agent-root") {
        Some(CliFlag::AgentRoot)
    } else if crate::normalize::is_text(&v, "--terminal-window-handle") {
        Some(CliFlag::TerminalWindowHandle)
    } else if crate::normalize::is_text(&v, "--restart-state") {
        Some(CliFlag::RestartState)
    } else if crate::normalize::is_text(&v, "--mode") {
        Some(CliFlag::Mode)
    } else if crate::normalize::is_text(&v, "--fade-seconds") {
        Some(CliFlag::FadeSeconds)
    } else if crate::normalize::is_text(&v, "--language") {
        Some(CliFlag::Language)
    } else if crate::normalize::is_text(&v, "--agent-model") {
        Some(CliFlag::AgentModel)
    } else {
        None
    }
}

fn cli_error(kind: CliErrorKind, detail: String) -> (r: CliError)
    ensures
        r.kind == kind,
        r.detail == detail,
{
    CliError { kind, detail }
}

/// Parses the command line (without the program name) of the entry point
/// of `default_mode`, left to right as `cli_scan` reads it: an option that
/// takes a value takes the next argument, whatever it is; a later option
/// overrides an earlier one; `--help` stops the reading.
pub fn parse_args(args: &Vec<String>, default_mode: AppMode) -> (r: Result<ParsedArgs, CliError>)
    ensures
        match r {
            Ok(ParsedArgs::Run(c)) => match cli_scan(arg_views(args@), 0, initial_cli(default_mode), default_mode) {
                CliOutcome::Run(m) => m == c.model(m.temp_dir) && c.temp_dir@ == resolved_temp_dir(m.temp_dir, c.model_path@),
                _ => false,
            },
            Ok(ParsedArgs::Help) => cli_scan(arg_views(args@), 0, initial_cli(default_mode), default_mode) == CliOutcome::Help,
            Err(e) => cli_scan(arg_views(args@), 0, initial_cli(default_mode), default_mode) == CliOutcome::Fail(e.kind, e.detail@),
        },
{
    let ghost views = arg_views(args@);
    let ghost goal = cli_scan(views, 0, initial_cli(default_mode), default_mode);
    let mut mode = default_mode;
    let mut model_path: Option<String> = None;
    let mut temp_dir: Option<String> = None;
    let mut agent_root: Option<String> = None;
    let mut terminal_window_handle: Option<isize> = None;
    let mut restart_state_path: Option<String> = None;
    let mut fade_seconds: u64 = DEFAULT_TEXT_FADE_SECONDS;
    let mut fade_seconds_provided = false;
    let mut language: Option<String> = None;
    let mut language_provided = false;
    let mut agent_model = string_of(&chars_of("gpt-5.6-terra"));
    let mut agent_model_provided = false;
    let mut agent_disabled = false;
    let mut i: usize = 0;
    while i < args.len()
        invariant
            i <= args.len(),
            views == arg_views(args@),
            goal == cli_scan(views, 0, initial_cli(default_mode), default_mode),
            cli_scan(views, i as int, CliModel {
                mode,
                model_path: opt_view(model_path),
                temp_dir: opt_view(temp_dir),
                agent_root: opt_view(agent_root),
                terminal_window_handle,
                restart_state_path: opt_view(restart_state_path),
                fade_seconds,
                fade_seconds_provided,
                language: opt_view(language),
                language_provided,
                agent_model: agent_model@,
                agent_model_provided,
                agent_disabled,
            }, default_mode) == goal,
        decreases args.len() - i,
    {
        let arg = &args[i];
        assert(views[i as int] == arg@);
        match flag_of_exec(arg.as_str()) {
            Some(flag) => {
                if i + 1 >= args.len() {
                    return Err(cli_error(CliErrorKind::MissingValue(flag), String::new()));
                }
                let value = &args[i + 1];
                assert(views[i + 1] == value@);
                match flag {
                    CliFlag::Model => model_path = Some(value.clone()),
                    CliFlag::TempDir => temp_dir = Some(value.clone()),
                    CliFlag::AgentRoot => agent_root = Some(value.clone()),
                    CliFlag::TerminalWindowHandle => match parse_terminal_window_handle(value.as_str()) {
                        Ok(h) => terminal_window_handle = h,
                        Err(e) => return Err(e),
                    },
                    CliFlag::RestartState => restart_state_path = Some(value.clone()),
                    CliFlag::Mode => match parse_app_mode(value.as_str()) {
                        Ok(m) => {
                            if m != default_mode {
                                let t = crate::text::trim_string(value.as_str());
                                return Err(cli_error(CliErrorKind::ModeUnavailable, t));
                            }
                            mode = m;
                        },
                        Err(e) => return Err(e),
                    },
                    CliFlag::FadeSeconds => match parse_fade_seconds(value.as_str()) {
                        Some(n) => {
                            fade_seconds = n;
                            fade_seconds_provided = true;
                        },
                        None => return Err(cli_error(CliErrorKind::InvalidFadeSeconds, String::new())),
                    },
                    CliFlag::Language => match crate::normalize::parse_language_argument(value.as_str()) {
                        Ok(l) => {
                            language = l;
                            language_provided = true;
                        },
                        Err(_) => return Err(cli_error(CliErrorKind::InvalidLanguage, String::new())),
                    },
                    CliFlag::AgentModel => {
                        agent_model = value.clone();
                        agent_model_provided = true;
                    },
                }
                i += 2;
            },
            None => {
                let v = chars_of(arg.as_str());
                if crate::normalize::is_text(&v, "--agent-disabled") {
                    agent_disabled = true;
                    i += 1;
                } else if crate::normalize::is_text(&v, "--help") || crate::normalize::is_text(&v, "-h") {
                    return Ok(ParsedArgs::Help);
                } else {
                    return Err(cli_error(CliErrorKind::UnknownArgument, arg.clone()));
                }
            },
        }
    }
    match model_path {
        None => Err(cli_error(CliErrorKind::MissingModel, String::new())),
        Some(path) => {
            let temp_dir = match temp_dir {
                Some(t) => t,
                None => default_temp_dir(path.as_str()),
            };
            Ok(ParsedArgs::Run(CliArgs {
            mode,
            model_path: path,
            temp_dir,
            agent_root,
            terminal_window_handle,
            restart_state_path,
            fade_seconds,
            fade_seconds_provided,
            language,
            language_provided,
            agent_model,
            agent_model_provided,
            agent_disabled,
        }))
        },
    }
}

/// The parent of a path, as `Path::parent` finds it by the path rules of
/// the target platform.
pub uninterp spec fn path_parent_of(path: Seq<char>) -> Option<Seq<char>>;

/// A path with another adjoined, as `Path::join` forms it by the path rules
/// of the target platform.
pub uninterp spec fn path_joined(base: Seq<char>, child: Seq<char>) -> Seq<char>;

/// `Path::parent` of a path given as text, as text: what `path_parent_of`
/// names. As its documentation says, the empty path has no parent.
#[verifier::external_body]
fn path_parent(path: &str) -> (r: Option<String>)
    ensures
        match r {
            Some(p) => path_parent_of(path@) == Some(p@),
            None => path_parent_of(path@) is None,
        },
        path@.len() == 0 ==> r is None,
{
    std::path::Path::new(path).parent().map(|p| p.to_string_lossy().into_owned())
}

/// `Path::join` of two paths given as text, as text: what `path_joined`
/// names.
#[verifier::external_body]
fn path_join(base: &str, child: &str) -> (r: String)
    ensures
        r@ == path_joined(base@, child@),
{
    std::path::Path::new(base).join(child).to_string_lossy().into_owned()
}

/// The temporary folder when none is given: `.temp` in the parent of the
/// model's folder, or `.temp` itself when the model path has no such
/// folder.
pub open spec fn default_temp_dir_spec(model_path: Seq<char>) -> Seq<char> {
    match path_parent_of(model_path) {
        Some(models) => match path_parent_of(models) {
            Some(root) => path_joined(root, ".temp"@),
            None => ".temp"@,
        },
        None => ".temp"@,
    }
}

/// The temporary folder given, or else the default for the model path.
pub open spec fn resolved_temp_dir(given: Option<Seq<char>>, model_path: Seq<char>) -> Seq<char> {
    match given {
        Some(t) => t,
        None => default_temp_dir_spec(model_path),
    }
}

/// The temporary folder used when none is given; see
/// `default_temp_dir_spec`.
pub fn default_temp_dir(model_path: &str) -> (r: String)
    ensures
        r@ == default_temp_dir_spec(model_path@),
{
    let temp = ".temp";
    proof {
        reveal_strlit(".temp");
    }
    match path_parent(model_path) {
        Some(models) => match path_parent(models.as_str()) {
            Some(root) => path_join(root.as_str(), temp),
            None => string_of(&chars_of(temp)),
        },
        None => string_of(&chars_of(temp)),
    }
}

/// Whether a file name is one the session leaves behind and expires:
/// transcript dumps and restart snapshots.
pub open spec fn expiring_name(name: Seq<char>) -> bool {
    ||| crate::text::is_prefix("transcription-"@, name) && crate::text::is_suffix(".txt"@, name)
    ||| crate::text::is_prefix("restart-state-"@, name) && crate::text::is_suffix(".json"@, name)
    ||| crate::text::is_prefix(".restart-state-"@, name) && crate::text::is_suffix(".tmp"@, name)
}

/// Whether a file (by its name) is one the session expires; see
/// `expiring_name`.
pub fn is_expiring_session_file(name: &str) -> (r: bool)
    ensures
        r == expiring_name(name@),
{
    let v = chars_of(name);
    (crate::text::starts_with(&v, &chars_of("transcription-")) && crate::text::ends_with(&v, &chars_of(".txt")))
        || (crate::text::starts_with(&v, &chars_of("restart-state-")) && crate::text::ends_with(&v, &chars_of(".json")))
        || (crate::text::starts_with(&v, &chars_of(".restart-state-")) && crate::text::ends_with(&v, &chars_of(".tmp")))
}

/// Whether the value of the dump switch turns transcript dumps on.
pub open spec fn dump_switch_on(value: Seq<char>) -> bool {
    let v = lower_seq(trim(value));
    v == "1"@ || v == "true"@ || v == "yes"@ || v == "on"@
}

/// Whether the value of the dump switch turns transcript dumps on; see
/// `dump_switch_on`.
pub fn transcript_dump_switch(value: &str) -> (r: bool)
    ensures
        r == dump_switch_on(value@),
{
    let v = crate::text::to_ascii_lowercase(&crate::text::trim_vec(&chars_of(value)));
    crate::normalize::is_text(&v, "1") || crate::normalize::is_text(&v, "true") || crate::normalize::is_text(&v, "yes")
        || crate::normalize::is_text(&v, "on")
}

} // verus!
