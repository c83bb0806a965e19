//! PlayBack: the decision logic of a keyboard-first media player built on
//! mpv — command-line parsing, playback state, configuration, the UI model
//! and the desktop shell's backend, each function with its contract.

use vstd::prelude::*;

pub mod float;
pub mod text;
pub mod error;
pub mod state;
pub mod cli;
pub mod scan;
pub mod reading;
pub mod cli_laws;
pub mod config;
pub mod config_keys;
pub mod document;
pub mod theme;
pub mod ui_state;
pub mod components;
pub mod views;
pub mod application;
pub mod mpv;
pub mod controller;
pub mod launcher;
pub mod help;
pub mod desktop;

verus! {

/// Returns whether this build includes the optional native mpv integration.
///
/// This build drives mpv through its executable (or a backend the host
/// supplies); the libmpv adapter is not part of it.
pub fn native_mpv_enabled() -> (r: bool)
    ensures
        !r,
{
    false
}

} // verus!
