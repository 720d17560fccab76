//! The command-template generators: each turns a named operation's arguments
//! into one literal shell command string for the engine to run verbatim.
pub mod collect_facts;
pub mod os_update;
pub mod reboot_wait;
pub mod sudo;
