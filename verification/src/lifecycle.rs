//! What the application's own lifecycle asks of the supervisor and the readiness gate:
//! whether the backend starts with the application, what a finished start
//! means for the readiness gate, and what the closing of the main window sets off.

use crate::gate::GateSignal;
use crate::launch::{kill_all_backends_silently, option_view, spec_kill_all, KillPlan, Platform};
use crate::supervisor::{StartStatus, SupervisorError};
use vstd::prelude::*;

verus! {

/// Environment variable that makes a debug build start the backend.
pub const FORCE_AUTOSTART_VAR: &'static str = "FORCE_AUTOSTART_BACKEND";

/// How the application was built.
#[derive(Clone, Copy, Debug, PartialEq, Eq, Structural)]
pub enum BuildProfile {
    Debug,
    Release,
}

/// What happened to the main window.
#[derive(Clone, Copy, Debug, PartialEq, Eq, Structural)]
pub enum WindowSignal {
    /// The user asked for the window to be closed.
    CloseRequested,
    /// The window is gone.
    Destroyed,
    /// Anything else: moved, resized, focused.
    Other,
}

/// What the host does when the main window goes away.
#[derive(Debug, PartialEq, Eq)]
pub struct Shutdown {
    /// Whether to stop the tracked child.
    pub stop: bool,
    /// The forced kill by name to run after the stop, where there is one.
    pub kill_all: Option<KillPlan>,
}

/// The value of [`FORCE_AUTOSTART_VAR`] that switches the start on.
pub open spec fn forces_autostart(value: Option<Seq<char>>) -> bool {
    value == Some(seq!['1'])
}

pub open spec fn spec_autostart(profile: BuildProfile, value: Option<Seq<char>>) -> bool {
    profile == BuildProfile::Release || forces_autostart(value)
}

pub open spec fn str_view(value: Option<&str>) -> Option<Seq<char>> {
    match value {
        Some(v) => Some(v@),
        None => None,
    }
}

/// Whether the backend is started along with the application: always in a
/// release build, and in a debug build only where the variable is set to
/// exactly `1`. `value` is the variable's value, `None` where it is unset
/// or not text.
pub fn autostart_backend(profile: BuildProfile, value: Option<&str>) -> (start: bool)
    ensures
        start == spec_autostart(profile, str_view(value)),
{
    match profile {
        BuildProfile::Release => true,
        BuildProfile::Debug => match value {
            Some(v) => {
                let forced = v.unicode_len() == 1 && v.get_char(0) == '1';
                assert(forced == (v@ =~= seq!['1']));
                forced
            },
            None => false,
        },
    }
}

/// The signal that a finished start sends to the readiness gate: every start that
/// succeeded, also one that found the backend already running, reports the
/// backend ready; a failed start reports nothing.
pub fn signal_after_start(outcome: &Result<StartStatus, SupervisorError>) -> (signal: Option<
    GateSignal,
>)
    ensures
        signal == if outcome is Ok {
            Some(GateSignal::BackendReady)
        } else {
            None
        },
{
    match outcome {
        Ok(_) => Some(GateSignal::BackendReady),
        Err(_) => None,
    }
}

pub open spec fn ends_the_backend(signal: WindowSignal) -> bool {
    signal == WindowSignal::CloseRequested || signal == WindowSignal::Destroyed
}

/// What the host does on a signal of the main window: when the window is
/// closed or destroyed, stop the backend and then run the forced kill of
/// the platform; on anything else nothing.
pub fn on_window_signal(signal: WindowSignal, platform: Platform) -> (shutdown: Shutdown)
    ensures
        shutdown.stop == ends_the_backend(signal),
        option_view(shutdown.kill_all) == if ends_the_backend(signal) {
            spec_kill_all(platform)
        } else {
            None
        },
{
    match signal {
        WindowSignal::CloseRequested | WindowSignal::Destroyed => Shutdown {
            stop: true,
            kill_all: kill_all_backends_silently(platform),
        },
        WindowSignal::Other => Shutdown { stop: false, kill_all: None },
    }
}

} // verus!
