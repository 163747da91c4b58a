//! The stages of an installation, each as a function from its inputs to a script.

pub mod base;
pub mod desktops;
pub mod laws;
pub mod locale;
pub mod network;
pub mod partition;
pub mod users;
