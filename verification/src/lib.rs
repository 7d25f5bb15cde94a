//! Decision core of a desktop shell that supervises one companion server
//! process and hands a splash window over to the main window.
//!
//! Everything here is free of I/O: the host performs the probes, spawns and
//! window calls that these functions ask for and reports back what happened.

pub mod gate;
pub mod resolver;
pub mod events;
pub mod launch;
pub mod supervisor;
pub mod forwarder;
pub mod lifecycle;
