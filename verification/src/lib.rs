//! Application bootstrap logic for the SERVE desktop shell.
//!
//! The host framework (window management, plugin lifecycle, event loop)
//! is outside this crate; what is verified here is every decision the
//! bootstrap makes: which plugins each profile attaches, what the setup
//! hook does with the resolved window and the build-time version string,
//! what the `check_for_updates` command emits, and how failures are
//! classified (always fatal, never recovered).

pub mod banner;
pub mod bootstrap;
pub mod profile;
