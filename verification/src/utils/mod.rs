//! Building blocks of the scripts: invocations, outcomes, package installation.

pub mod exec;
pub mod returncode_eval;
pub mod install;
pub mod files;
pub mod pattern;
pub mod logging;
pub mod network;
pub mod progress;
