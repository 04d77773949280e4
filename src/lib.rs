//! Builds, memory-checks and cleans small C projects laid out as
//! `src/`, `include/`, `bin/` and `log/` under one project directory.
//!
//! The library decides; the caller acts. An action runs as a [`Session`]:
//! each call of [`Session::step`] takes what the caller observed and returns
//! the next [`Effect`] to perform (list the sources, make a directory, run the
//! compiler, ...), until an `Effect::Finish` carries the action's result.
//! The laws of the protocol are stated and proved in [`laws`].

pub mod laws;
mod paths;
mod session;
mod toolchain;

pub use paths::{c_file_name, c_source, c_sources, file_name_of, is_c_file_name, is_c_source, join_path, joined, select_sources, texts};
pub use session::{
    admits, admits_c, reply, reply_c, run, ActionError, Effect, EffectView, ErrorView, Event, EventView,
    OutcomeView, RunOutcome, Session, Stage, StageView, Toolchain,
};
pub use toolchain::{cflags, clibs, words_of, Action, CCompiler, Language};
