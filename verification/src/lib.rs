//! WinTag: tags, badges and an overview panel for top-level windows.
//!
//! The crate holds the decisions of the program as verified functions over
//! plain values: window handles are integers, controls are identified by their
//! numeric ids, and every user interaction is a step from a state and an event
//! to a new state and a list of actions for the caller to perform.

pub mod common;
pub mod hotkey;
pub mod model;
pub mod session;
pub mod session_laws;
pub mod sys;
pub mod text;
pub mod ui;
