//! A test-double layer for external process invocation.
//!
//! Instead of spawning real operating-system processes, callers issue
//! commands against an explicit registry of mock definitions and an explicit
//! invocation log. A [`Command`] records every invocation, looks the
//! signature up in the registry, and synthesizes the canned result of the
//! first matching definition — or a silent success when none matches.
//! [`was_command_executed`] answers, after the fact, whether a command with
//! an exact signature was issued.

mod builder;
mod command;
mod model;
mod recorder;
mod registry;
mod strings;

pub use builder::mock;
pub use builder::CommandMockBuilder;
pub use command::synthesize_output;
pub use command::Command;
pub use command::ExitStatus;
pub use command::Output;
pub use model::default_output;
pub use model::find_spec;
pub use model::first_match_at;
pub use model::has_match;
pub use model::lemma_find_exact_match;
pub use model::lemma_first_registration_wins;
pub use model::lemma_verification_completeness;
pub use model::pieces_sig;
pub use model::recorded;
pub use model::synth_output;
pub use model::DefView;
pub use model::OutView;
pub use model::Sig;
pub use recorder::get_executed_commands;
pub use recorder::record_executed_command;
pub use recorder::was_command_executed;
pub use recorder::ExecutedCommand;
pub use registry::find_mock;
pub use registry::register_mock;
pub use registry::MockDefinition;
