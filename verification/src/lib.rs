//! Runs a command inside an isolated filesystem ("jail"), choosing between
//! an overlay-root container launcher and a namespace sandbox launcher by
//! the host's init-system family.
//!
//! The library holds the decision logic: init-system classification, the
//! line-oriented jail configuration parser, placeholder expansion of the
//! package-manager argument template, and the construction of the full
//! launcher invocation (program, argument list, environment injections)
//! for either backend. Spawning the launcher process and reading the
//! configuration file from disk are left to the surrounding program, which
//! hands the library plain values and receives a fully built invocation.

pub mod backend;
pub mod config;
mod host;
pub mod init;
pub mod invocation;
pub mod runner;
pub mod split;
pub mod text;
