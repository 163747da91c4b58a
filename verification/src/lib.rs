//! Planning library of a Linux distribution installer.
//!
//! Nothing in this crate touches the host. Every operation of the installer
//! is computed as a script: a list of steps, each naming one action for the
//! host, the condition under which it applies, and what its outcome means
//! for the run. A thin program performs the step it is handed, reports the
//! outcome, and lets [`script::start`] and [`script::resume`] decide what
//! comes next.
//!
//! - [`script`]: steps, outcomes, the runner, and what holds of every run.
//! - [`modules`]: the stages of an installation, from partitioning to users.
//! - [`config`]: the operator's choices, and the script of the whole
//!   installation.
//! - [`utils`]: invocations, package installation, file operations, the
//!   reading of program output.
//! - [`front`], [`state`]: what a graphical front end decides and remembers.
//! - [`text`]: the character-level vocabulary of all contracts.

pub mod cli;
pub mod config;
pub mod front;
pub mod modules;
pub mod script;
pub mod state;
pub mod text;
pub mod utils;
