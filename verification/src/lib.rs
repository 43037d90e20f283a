//! Decision logic of a command-line control panel for Discord Web.
//!
//! The library holds the command manifest, parameter extraction, command
//! dispatch and, for every browser-driven command, a state machine that says
//! which browser action comes next and what the command answers in the end.
//! The program around it performs the browser actions and feeds back replies.

pub mod text;
pub mod error;
pub mod params;
pub mod manifest;
pub mod registry;
pub mod executor;
pub mod script;
pub mod browser;
pub mod navigate;
pub mod read;
pub mod channels;
pub mod switch;
pub mod search;
pub mod send;
pub mod servers;
pub mod members;
pub mod status;
pub mod open;
pub mod laws;
