//! The names that the UI layer and this library agree on: the events it
//! listens for, the windows it shows, and the title of the main window.

use vstd::prelude::*;

verus! {

/// Event published once per successful launch of the backend.
pub const READY_EVENT: &'static str = "backend:ready";

/// Payload of [`READY_EVENT`].
pub const READY_MESSAGE: &'static str = "spawn ok";

/// Event that carries one line of the backend's standard output.
pub const STDOUT_EVENT: &'static str = "backend:stdout";

/// Event that carries one line of the backend's standard error.
pub const STDERR_EVENT: &'static str = "backend:stderr";

/// Label of the window shown while the application starts.
pub const SPLASH_WINDOW: &'static str = "splash";

/// Label of the window shown once the application is ready.
pub const MAIN_WINDOW: &'static str = "main";

/// Title that a reveal by readiness gives the main window.
pub const MAIN_TITLE: &'static str = "向听镜 - Shanten Lens";

/// One of the two captured output streams of the backend.
#[derive(Clone, Copy, Debug, PartialEq, Eq, Structural)]
pub enum StreamKind {
    Stdout,
    Stderr,
}

impl StreamKind {
    pub open spec fn spec_event_name(self) -> Seq<char> {
        match self {
            StreamKind::Stdout => STDOUT_EVENT@,
            StreamKind::Stderr => STDERR_EVENT@,
        }
    }

    /// The event under which lines of this stream are published.
    pub fn event_name(&self) -> (name: &'static str)
        ensures
            name@ == self.spec_event_name(),
    {
        match self {
            StreamKind::Stdout => STDOUT_EVENT,
            StreamKind::Stderr => STDERR_EVENT,
        }
    }
}

} // verus!
