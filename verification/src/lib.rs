//! A library for a desktop shell that runs one external web-server process:
//! a single-child-process supervisor, the tray-menu decision table, the
//! system-information record, and the outcome rules of the pass-through
//! commands. The host application performs the OS calls (spawning, killing,
//! opening a browser) and feeds their results back into these functions.

pub mod commands;
pub mod supervisor;
pub mod system_info;
pub mod tray;
