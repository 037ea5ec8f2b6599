//! Decision logic of the speech agent: transcript estimation and merging,
//! the recognition state of each source, typing drafts, settings
//! normalization and the settings screens, agent configuration, requests and
//! insight state, key handling, the screen lines, the startup decisions, and
//! the restart snapshot.
use vstd::prelude::*;

pub mod text;
pub mod words;
pub mod transcript;
pub mod blocks;
pub mod delta;
pub mod numbers;
pub mod modes;
pub mod normalize;
pub mod layout;
pub mod agent;
pub mod stream;
pub mod json;
pub mod agent_config;
pub mod insight;
pub mod panes;
pub mod choices;
pub mod settings;
pub mod screen;
pub mod typing_pane;
pub mod errors;
pub mod app_state;
pub mod hex;
pub mod session;
pub mod restore;
pub mod startup;
pub mod keys;
pub mod args;
pub mod worker;
pub mod view;
pub mod typing_view;
pub mod transcript_view;
pub mod agent_view;
pub mod request;
pub mod launch;
pub mod screens;
pub mod replies;

use crate::args::{parse_args, CliError, ParsedArgs};
use crate::modes::AppMode;

verus! {

/// Entry point of the transcription product: reads its command line
/// (without the program name) with transcription as the default mode, so a
/// request for dictation is refused here (see `parse_args`).
pub fn run_app(args: &Vec<String>) -> (r: Result<ParsedArgs, CliError>)
    ensures
        match r {
            Ok(ParsedArgs::Run(c)) => match crate::args::cli_scan(crate::args::arg_views(args@), 0, crate::args::initial_cli(AppMode::Transcription), AppMode::Transcription) {
                crate::args::CliOutcome::Run(m) => m == c.model(m.temp_dir) && c.temp_dir@ == crate::args::resolved_temp_dir(m.temp_dir, c.model_path@),
                _ => false,
            },
            Ok(ParsedArgs::Help) => crate::args::cli_scan(crate::args::arg_views(args@), 0, crate::args::initial_cli(AppMode::Transcription), AppMode::Transcription)
                == crate::args::CliOutcome::Help,
            Err(e) => crate::args::cli_scan(crate::args::arg_views(args@), 0, crate::args::initial_cli(AppMode::Transcription), AppMode::Transcription)
                == crate::args::CliOutcome::Fail(e.kind, e.detail@),
        },
{
    parse_args(args, AppMode::Transcription)
}

} // verus!
