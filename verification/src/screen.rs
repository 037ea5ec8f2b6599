//! The transcription settings screen: opening and closing it, the pending
//! changes against the running settings, and how a key press changes the
//! selected setting.
use vstd::prelude::*;

use crate::choices::{
    cycle_context_spec, cycle_num_spec, cycle_sources_spec, cycle_str_spec, hidden_exit_choices,
    hidden_pause_choices, idle_exit_choices, language_choices, model_id_choices, session_choices,
    token_budget_choices, window_choices,
};
use crate::delta::compact_error_spec;
use crate::layout::string_seqs;
use crate::modes::{
    cycled, transparency_preset_spec, ContextStrictness, TranscriptionAnswerMode,
    TypingSettingDirection, TYPING_TRANSPARENCY_PRESET_COUNT,
};
use crate::normalize::{
    add_discovered, compatible_model_spec, normalize_language_spec, standard_choices_spec,
    transparency_index_spec,
};
use crate::settings::{
    is_normalized_of, opt_text, restart_differs, same_settings, EnchantedTranscriptionSettings,
    TranscriptionRestartSettings,
};
use crate::text::{chars_of, string_of};

verus! {

/// What a key press did.
#[derive(Clone, Copy, Debug, PartialEq, Eq, Structural)]
pub enum TypingKeyOutcome {
    Ignored,
    Consumed,
    Changed,
    ExitRequested,
}

/// The transcription settings screen.
pub struct TranscriptionSettingsState {
    pub open: bool,
    pub selection: usize,
    pub scroll_offset: usize,
    pub note: Option<String>,
    pub load_error: Option<String>,
    pub confirm_close: bool,
    pub active: TranscriptionRestartSettings,
    pub pending: TranscriptionRestartSettings,
    pub snapshot: TranscriptionRestartSettings,
    pub fade_snapshot_secs: u64,
    pub transparency_generation: u64,
    pub available_models: Vec<String>,
    pub available_context_files: Vec<String>,
}

/// The note shown when opening the screen: one message per folder that
/// could not be read, joined by ` | `.
pub open spec fn discovery_note(models: Result<Seq<Seq<char>>, Seq<char>>, files: Result<Seq<Seq<char>>, Seq<char>>) -> Option<Seq<char>> {
    let m = match models {
        Err(e) => Some("Whisper model folder unavailable: "@ + compact_error_spec(e, 120)),
        Ok(_) => None,
    };
    let f = match files {
        Err(e) => Some("Context folder unavailable: "@ + compact_error_spec(e, 120)),
        Ok(_) => None,
    };
    match (m, f) {
        (Some(a), Some(b)) => Some(a + " | "@ + b),
        (Some(a), None) => Some(a),
        (None, Some(b)) => Some(b),
        (None, None) => None,
    }
}

/// The view of a discovery result.
pub open spec fn listing_view(r: Result<Vec<String>, String>) -> Result<Seq<Seq<char>>, Seq<char>> {
    match r {
        Ok(v) => Ok(string_seqs(v@)),
        Err(e) => Err(e@),
    }
}

/// The language a setting set uses, `auto` when none is set.
pub open spec fn language_or_auto(language: Option<Seq<char>>) -> Seq<char> {
    match language {
        Some(l) => l,
        None => "auto"@,
    }
}

/// The models offered on the screen for a language.
pub open spec fn model_choices_spec(language: Seq<char>, available: Seq<Seq<char>>) -> Seq<Seq<char>> {
    add_discovered(standard_choices_spec(language), language, available)
}

proof fn lemma_add_discovered_len(choices: Seq<Seq<char>>, language: Seq<char>, discovered: Seq<Seq<char>>)
    ensures
        add_discovered(choices, language, discovered).len() >= choices.len(),
    decreases discovered.len(),
{
    if discovered.len() > 0 {
        lemma_add_discovered_len(choices, language, discovered.drop_last());
    }
}

/// The new language setting: the next offered language, none for `auto`.
pub open spec fn next_language(language: Option<Seq<char>>, direction: TypingSettingDirection) -> Option<Seq<char>> {
    let next = cycle_str_spec(language_or_auto(language), language_choices(), direction);
    if next == "auto"@ {
        None
    } else {
        Some(next)
    }
}

/// The transparency label after the current one (unknown labels count as
/// the first preset).
pub open spec fn next_transparency(label: Seq<char>, direction: TypingSettingDirection) -> Seq<char> {
    let idx = match transparency_index_spec(label) {
        Some(i) => i,
        None => 0,
    };
    transparency_preset_spec(cycled(idx, TYPING_TRANSPARENCY_PRESET_COUNT as int, direction)).0
}

/// The hidden pause delay offered after the current one (0 while hidden
/// pausing is off).
pub open spec fn next_hidden_pause(enabled: bool, seconds: u64, direction: TypingSettingDirection) -> u64 {
    cycle_num_spec(if enabled { seconds } else { 0 }, hidden_pause_choices(), direction)
}

/// The fade time after a step of five seconds, kept within 5..=180.
pub open spec fn next_fade(secs: u64, direction: TypingSettingDirection) -> u64 {
    match direction {
        TypingSettingDirection::Previous => if secs < 10 { 5 } else { (secs - 5) as u64 },
        TypingSettingDirection::Next => if secs + 5 > 180 { 180 } else { (secs + 5) as u64 },
    }
}

impl TranscriptionSettingsState {
    /// The screen for freshly loaded settings, closed, with no pending
    /// change.
    pub fn new(
        settings: &EnchantedTranscriptionSettings,
        load_error: Option<String>,
        fade_secs: u64,
        available_models: Vec<String>,
        available_context_files: Vec<String>,
    ) -> (r: Self)
        ensures
            !r.open,
            r.selection == 0,
            r.scroll_offset == 0,
            r.note is None,
            r.load_error == load_error,
            !r.confirm_close,
            crate::settings::restart_of(r.active, *settings),
            same_settings(r.pending, r.active),
            same_settings(r.snapshot, r.active),
            r.fade_snapshot_secs == fade_secs,
            r.transparency_generation == 0,
            r.available_models == available_models,
            r.available_context_files == available_context_files,
    {
        let values = TranscriptionRestartSettings::from_settings(settings);
        TranscriptionSettingsState {
            open: false,
            selection: 0,
            scroll_offset: 0,
            note: None,
            load_error,
            confirm_close: false,
            active: values.copy(),
            pending: values.copy(),
            snapshot: values,
            fade_snapshot_secs: fade_secs,
            transparency_generation: 0,
            available_models,
            available_context_files,
        }
    }

    /// Opens the screen: the pending settings and the fade become the
    /// snapshot that a discarded close returns to, and the model and
    /// document lists are refreshed from the folders (emptied, with a note,
    /// when a folder cannot be read).
    pub fn open(
        &mut self,
        fade_secs: u64,
        models: Result<Vec<String>, String>,
        context_files: Result<Vec<String>, String>,
    )
        ensures
            final(self).open,
            final(self).scroll_offset == 0,
            !final(self).confirm_close,
            same_settings(final(self).snapshot, old(self).pending),
            final(self).fade_snapshot_secs == fade_secs,
            string_seqs(final(self).available_models@) == (match listing_view(models) {
                Ok(v) => v,
                Err(_) => Seq::empty(),
            }),
            string_seqs(final(self).available_context_files@) == (match listing_view(context_files) {
                Ok(v) => v,
                Err(_) => Seq::empty(),
            }),
            opt_text(final(self).note) == discovery_note(listing_view(models), listing_view(context_files)),
            final(self).selection == old(self).selection,
            final(self).pending == old(self).pending,
            final(self).active == old(self).active,
            final(self).load_error == old(self).load_error,
            final(self).transparency_generation == old(self).transparency_generation,
    {
        self.open = true;
        self.scroll_offset = 0;
        self.confirm_close = false;
        self.snapshot = self.pending.copy();
        self.fade_snapshot_secs = fade_secs;
        let ghost mv = listing_view(models);
        let ghost fv = listing_view(context_files);
        let model_note: Option<Vec<char>> = match models {
            Ok(list) => {
                self.available_models = list;
                None
            },
            Err(e) => {
                self.available_models = Vec::new();
                assert(string_seqs(self.available_models@) =~= Seq::<Seq<char>>::empty());
                let mut n = chars_of("Whisper model folder unavailable: ");
                let c = crate::delta::compact_error(e.as_str(), 120);
                crate::text::append_chars(&mut n, &chars_of(c.as_str()));
                Some(n)
            },
        };
        let file_note: Option<Vec<char>> = match context_files {
            Ok(list) => {
                self.available_context_files = list;
                None
            },
            Err(e) => {
                self.available_context_files = Vec::new();
                assert(string_seqs(self.available_context_files@) =~= Seq::<Seq<char>>::empty());
                let mut n = chars_of("Context folder unavailable: ");
                let c = crate::delta::compact_error(e.as_str(), 120);
                crate::text::append_chars(&mut n, &chars_of(c.as_str()));
                Some(n)
            },
        };
        self.note = match (model_note, file_note) {
            (Some(a), Some(b)) => {
                let mut n = a;
                crate::numbers::push_str_chars(&mut n, " | ");
                crate::text::append_chars(&mut n, &b);
                Some(string_of(&n))
            },
            (Some(a), None) => Some(string_of(&a)),
            (None, Some(b)) => Some(string_of(&b)),
            (None, None) => None,
        };
    }

    /// Closes the screen.
    pub fn close(&mut self)
        ensures
            *final(self) == (TranscriptionSettingsState {
                open: false,
                scroll_offset: 0,
                note: None,
                confirm_close: false,
                ..*old(self)
            }),
    {
        self.open = false;
        self.scroll_offset = 0;
        self.note = None;
        self.confirm_close = false;
    }

    /// Asks to close: with a load error or unsaved changes (settings or
    /// fade) a confirmation is asked first; otherwise the screen closes.
    pub fn request_close(&mut self, fade_secs: u64)
        ensures
            (old(self).load_error is Some || !same_settings(old(self).pending, old(self).snapshot)
                || fade_secs != old(self).fade_snapshot_secs) ==> *final(self) == (TranscriptionSettingsState {
                confirm_close: true,
                note: None,
                ..*old(self)
            }),
            !(old(self).load_error is Some || !same_settings(old(self).pending, old(self).snapshot)
                || fade_secs != old(self).fade_snapshot_secs) ==> *final(self) == (TranscriptionSettingsState {
                open: false,
                scroll_offset: 0,
                note: None,
                confirm_close: false,
                ..*old(self)
            }),
    {
        if self.load_error.is_some() || !self.pending.same_as(&self.snapshot) || fade_secs != self.fade_snapshot_secs {
            self.confirm_close = true;
            self.note = None;
        } else {
            self.close();
        }
    }

    /// Closes without saving: the pending settings and the fade return to
    /// the snapshot taken when the screen opened.
    pub fn discard_close(&mut self, fade_secs: &mut u64)
        ensures
            same_settings(final(self).pending, old(self).snapshot),
            *final(fade_secs) == old(self).fade_snapshot_secs,
            !final(self).open,
            final(self).scroll_offset == 0,
            final(self).note is None,
            !final(self).confirm_close,
            final(self).snapshot == old(self).snapshot,
            final(self).active == old(self).active,
            final(self).selection == old(self).selection,
    {
        self.pending = self.snapshot.copy();
        *fade_secs = self.fade_snapshot_secs;
        self.close();
    }

    /// Whether a pending change needs the session to restart.
    pub fn has_restart_changes(&self) -> (r: bool)
        ensures
            r == restart_differs(self.pending, self.active),
    {
        !crate::settings::sources_equal(&self.pending.sources, &self.active.sources)
            || !crate::settings::opt_string_equal(&self.pending.language, &self.active.language)
            || !crate::settings::text_equal(&self.pending.model, &self.active.model)
            || self.pending.chunk_seconds != self.active.chunk_seconds
            || self.pending.agent_enabled != self.active.agent_enabled
            || !crate::settings::text_equal(&self.pending.agent_model, &self.active.agent_model)
            || self.pending.answer_mode != self.active.answer_mode
            || self.pending.include_microphone != self.active.include_microphone
            || !crate::settings::opt_string_equal(&self.pending.context_file, &self.active.context_file)
            || self.pending.context_strictness != self.active.context_strictness
    }

    /// The pending settings as saved, with the fade, normalized.
    pub fn persisted_settings(&self, fade_secs: u64) -> (r: EnchantedTranscriptionSettings)
        ensures
            crate::settings::is_normalized_from(
                r,
                self.pending.sources@,
                match opt_text(self.pending.language) {
                    Some(l) => normalize_language_spec(l),
                    None => "auto"@,
                },
                self.pending.model@,
                self.pending.chunk_seconds,
                fade_secs,
                self.pending.agent_enabled,
                self.pending.agent_model@,
                self.pending.answer_mode,
                self.pending.include_microphone,
                opt_text(self.pending.context_file),
                self.pending.context_strictness,
                self.pending.pause_agent_when_hidden,
                self.pending.hidden_pause_seconds,
                self.pending.hidden_exit_minutes,
                self.pending.idle_exit_minutes,
                self.pending.max_session_minutes,
                self.pending.agent_token_budget,
                self.pending.transparency_label@,
            ),
    {
        let p = &self.pending;
        let language = match &p.language {
            Some(l) => crate::normalize::transcription_language_setting(Some(l.as_str())),
            None => crate::normalize::transcription_language_setting(None),
        };
        let raw = EnchantedTranscriptionSettings {
            sources: p.sources.clone(),
            language,
            model: p.model.clone(),
            chunk_seconds: p.chunk_seconds,
            fade_seconds: fade_secs,
            agent_enabled: p.agent_enabled,
            agent_model: p.agent_model.clone(),
            answer_mode: p.answer_mode,
            include_microphone: p.include_microphone,
            context_file: crate::settings::opt_string_clone(&p.context_file),
            context_strictness: p.context_strictness,
            pause_agent_when_hidden: p.pause_agent_when_hidden,
            hidden_pause_seconds: p.hidden_pause_seconds,
            hidden_exit_minutes: p.hidden_exit_minutes,
            idle_exit_minutes: p.idle_exit_minutes,
            max_session_minutes: p.max_session_minutes,
            agent_token_budget: p.agent_token_budget,
            transparency_label: p.transparency_label.clone(),
        };
        raw.normalized()
    }
}

/// Whether `b` is `a` with the selected setting stepped in `direction`
/// (selection numbers as on the screen; fade is row 0).
pub open spec fn stepped_settings(
    selection: usize,
    a: TranscriptionRestartSettings,
    b: TranscriptionRestartSettings,
    available_models: Seq<Seq<char>>,
    context_files: Seq<Seq<char>>,
    direction: TypingSettingDirection,
) -> bool {
    let language = if selection == 2 { next_language(opt_text(a.language), direction) } else { opt_text(a.language) };
    let pause = next_hidden_pause(a.pause_agent_when_hidden, a.hidden_pause_seconds, direction);
    &&& b.sources@ == (if selection == 1 { cycle_sources_spec(a.sources@, direction) } else { a.sources@ })
    &&& opt_text(b.language) == language
    &&& b.model@ == (if selection == 2 {
        compatible_model_spec(a.model@, language_or_auto(language))
    } else if selection == 3 {
        cycle_str_spec(a.model@, model_choices_spec(language_or_auto(language), available_models), direction)
    } else {
        a.model@
    })
    &&& b.chunk_seconds == (if selection == 4 { cycle_num_spec(a.chunk_seconds, window_choices(), direction) } else { a.chunk_seconds })
    &&& b.agent_enabled == (if selection == 5 { !a.agent_enabled } else { a.agent_enabled })
    &&& b.agent_model@ == (if selection == 6 { cycle_str_spec(a.agent_model@, model_id_choices(), direction) } else { a.agent_model@ })
    &&& b.answer_mode == (if selection == 7 {
        match a.answer_mode {
            TranscriptionAnswerMode::Silhouette => TranscriptionAnswerMode::NaturalAnswer,
            TranscriptionAnswerMode::NaturalAnswer => TranscriptionAnswerMode::Silhouette,
        }
    } else {
        a.answer_mode
    })
    &&& b.include_microphone == (if selection == 8 { !a.include_microphone } else { a.include_microphone })
    &&& b.pause_agent_when_hidden == (if selection == 9 { pause > 0 } else { a.pause_agent_when_hidden })
    &&& b.hidden_pause_seconds == (if selection == 9 { pause } else { a.hidden_pause_seconds })
    &&& b.hidden_exit_minutes == (if selection == 10 { cycle_num_spec(a.hidden_exit_minutes, hidden_exit_choices(), direction) } else { a.hidden_exit_minutes })
    &&& b.idle_exit_minutes == (if selection == 11 { cycle_num_spec(a.idle_exit_minutes, idle_exit_choices(), direction) } else { a.idle_exit_minutes })
    &&& b.max_session_minutes == (if selection == 12 { cycle_num_spec(a.max_session_minutes, session_choices(), direction) } else { a.max_session_minutes })
    &&& b.agent_token_budget == (if selection == 13 { cycle_num_spec(a.agent_token_budget, token_budget_choices(), direction) } else { a.agent_token_budget })
    &&& b.transparency_label@ == (if selection == 14 { next_transparency(a.transparency_label@, direction) } else { a.transparency_label@ })
    &&& opt_text(b.context_file) == (if selection == 15 {
        cycle_context_spec(opt_text(a.context_file), context_files, direction)
    } else {
        opt_text(a.context_file)
    })
    &&& b.context_strictness == (if selection == 16 {
        match a.context_strictness {
            ContextStrictness::Soft => ContextStrictness::Strong,
            ContextStrictness::Strong => ContextStrictness::Soft,
        }
    } else {
        a.context_strictness
    })
}

impl TranscriptionSettingsState {
    /// Steps the selected setting in `direction`: row 0 changes the fade
    /// (applied at once, with a note), rows 1 to 16 change a pending
    /// setting; see `stepped_settings`. The outcome is `Changed` when the
    /// fade or a pending value changed, `Consumed` otherwise. Nothing else
    /// of the screen changes.
    #[verifier::spinoff_prover]
    #[verifier::rlimit(80)]
    pub fn change_setting(&mut self, fade_secs: &mut u64, direction: TypingSettingDirection) -> (r: TypingKeyOutcome)
        ensures
            *final(self) == (TranscriptionSettingsState { pending: final(self).pending, note: final(self).note, ..*old(self) }),
            *final(fade_secs) == (if old(self).selection == 0 { next_fade(*old(fade_secs), direction) } else { *old(fade_secs) }),
            old(self).selection <= 16 ==> stepped_settings(
                old(self).selection,
                old(self).pending,
                final(self).pending,
                string_seqs(old(self).available_models@),
                string_seqs(old(self).available_context_files@),
                direction,
            ),
            old(self).selection > 16 ==> final(self).pending == old(self).pending,
            old(self).selection == 0 ==> opt_text(final(self).note) == Some("Fade applies immediately"@),
            1 <= old(self).selection <= 16 ==> final(self).note is None,
            old(self).selection > 16 ==> final(self).note == old(self).note,
            r == (if old(self).selection <= 16 && (*final(fade_secs) != *old(fade_secs)
                || !same_settings(final(self).pending, old(self).pending)) {
                TypingKeyOutcome::Changed
            } else {
                TypingKeyOutcome::Consumed
            }),
            final(self).selection == old(self).selection,
            final(self).active == old(self).active,
            final(self).snapshot == old(self).snapshot,
            final(self).available_models == old(self).available_models,
            final(self).available_context_files == old(self).available_context_files,
            final(self).open == old(self).open,
            final(self).load_error == old(self).load_error,
    {
        let before_fade = *fade_secs;
        let before = self.pending.copy();
        let selection = self.selection;
        if selection > 16 {
            return TypingKeyOutcome::Consumed;
        }
        if selection == 0 {
            let current = *fade_secs;
            *fade_secs = match direction {
                TypingSettingDirection::Previous => if current < 10 { 5 } else { current - 5 },
                TypingSettingDirection::Next => if current > 175 { 180 } else { current + 5 },
            };
            self.note = Some(string_of(&chars_of("Fade applies immediately")));
        } else if selection == 1 {
            self.pending.sources = crate::choices::cycle_transcription_sources(&self.pending.sources, direction);
        } else if selection == 2 {
            let current = match &self.pending.language {
                Some(l) => l.clone(),
                None => string_of(&chars_of("auto")),
            };
            let next = crate::choices::cycle_str_choice(current.as_str(), &crate::choices::transcription_language_choices(), direction);
            let is_auto = crate::normalize::is_text(&chars_of(next.as_str()), "auto");
            self.pending.language = if is_auto {
                None
            } else {
                Some(next)
            };
            let language = match &self.pending.language {
                Some(l) => l.clone(),
                None => string_of(&chars_of("auto")),
            };
            self.pending.model = crate::normalize::compatible_model_for_language(self.pending.model.as_str(), language.as_str());
        } else if selection == 3 {
            let language = match &self.pending.language {
                Some(l) => l.clone(),
                None => string_of(&chars_of("auto")),
            };
            let choices = crate::normalize::transcription_model_choices_for_language(language.as_str(), &self.available_models);
            proof {
                lemma_add_discovered_len(
                    standard_choices_spec(language@),
                    language@,
                    self.available_models@.map_values(|s: String| s@),
                );
                assert(self.available_models@.map_values(|s: String| s@) =~= string_seqs(self.available_models@));
            }
            self.pending.model = crate::choices::cycle_str_choice(self.pending.model.as_str(), &choices, direction);
        } else if selection == 4 {
            self.pending.chunk_seconds = crate::choices::cycle_usize_choice(
                self.pending.chunk_seconds,
                &crate::choices::transcription_window_choices(),
                direction,
            );
        } else if selection == 5 {
            self.pending.agent_enabled = !self.pending.agent_enabled;
        } else if selection == 6 {
            self.pending.agent_model = crate::choices::cycle_str_choice(
                self.pending.agent_model.as_str(),
                &crate::choices::model_id_choice_list(),
                direction,
            );
        } else if selection == 7 {
            self.pending.answer_mode = self.pending.answer_mode.cycle(direction);
        } else if selection == 8 {
            self.pending.include_microphone = !self.pending.include_microphone;
        } else if selection == 9 {
            let current = if self.pending.pause_agent_when_hidden {
                self.pending.hidden_pause_seconds
            } else {
                0
            };
            let next = crate::choices::cycle_u64_choice(current, &crate::choices::hidden_pause_second_choices(), direction);
            self.pending.pause_agent_when_hidden = next > 0;
            self.pending.hidden_pause_seconds = next;
        } else if selection == 10 {
            self.pending.hidden_exit_minutes = crate::choices::cycle_u64_choice(
                self.pending.hidden_exit_minutes,
                &crate::choices::hidden_exit_minute_choices(),
                direction,
            );
        } else if selection == 11 {
            self.pending.idle_exit_minutes = crate::choices::cycle_u64_choice(
                self.pending.idle_exit_minutes,
                &crate::choices::idle_exit_minute_choices(),
                direction,
            );
        } else if selection == 12 {
            self.pending.max_session_minutes = crate::choices::cycle_u64_choice(
                self.pending.max_session_minutes,
                &crate::choices::session_minute_choices(),
                direction,
            );
        } else if selection == 13 {
            self.pending.agent_token_budget = crate::choices::cycle_u64_choice(
                self.pending.agent_token_budget,
                &crate::choices::agent_token_budget_choices(),
                direction,
            );
        } else if selection == 14 {
            let current_index = match crate::normalize::typing_transparency_preset_index(self.pending.transparency_label.as_str()) {
                Some(i) => i,
                None => 0,
            };
            proof {
                if let Some(i) = transparency_index_spec(self.pending.transparency_label@) {
                    assert(0 <= i < TYPING_TRANSPARENCY_PRESET_COUNT);
                }
            }
            let next_index = crate::modes::cycle_index(current_index, TYPING_TRANSPARENCY_PRESET_COUNT, direction);
            let preset = crate::modes::typing_transparency_preset(next_index);
            self.pending.transparency_label = string_of(&chars_of(preset.label));
        } else if selection == 15 {
            let next = match &self.pending.context_file {
                Some(c) => crate::choices::cycle_context_file(Some(c.as_str()), &self.available_context_files, direction),
                None => crate::choices::cycle_context_file(None, &self.available_context_files, direction),
            };
            self.pending.context_file = next;
        } else {
            self.pending.context_strictness = self.pending.context_strictness.cycle(direction);
        }
        if selection != 0 {
            self.note = None;
        }
        if *fade_secs == before_fade && self.pending.same_as(&before) {
            TypingKeyOutcome::Consumed
        } else {
            TypingKeyOutcome::Changed
        }
    }
}

} // verus!
