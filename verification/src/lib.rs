//! Verified core of a tool that watches one file and, on every modification,
//! pastes the file's contents into a web form through a WebDriver session.
//!
//! The crate decides; its caller performs. [`session::Session`] tells the
//! caller which outside operation comes next in the life of the program and
//! takes the operation's result back; [`automation::Automation`] does the same
//! for the browser commands of one run. [`notifier`] and [`browser`] hold the
//! few calls into the file-notification, channel and WebDriver crates that are
//! plain computations. The three modules of laws state what holds of every
//! run, of every session, and of both together with a one-slot channel.

pub mod automation;
pub mod automation_laws;
pub mod browser;
pub mod endpoints;
pub mod notifier;
pub mod session;
pub mod session_laws;
pub mod signal_laws;
