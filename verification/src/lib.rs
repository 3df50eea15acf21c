//! Shokodex: the decisions behind a terminal chat assistant that may run
//! PowerShell commands once the user has approved them.
//!
//! Nothing in this crate reads or writes anything. A caller performs the
//! terminal operations and the session actions that are handed out here, and
//! hands back the keys, lines, replies and command results that come of them.
pub mod card;
pub mod chat;
pub mod editor;
pub mod editor_laws;
pub mod outside;
pub mod powershell;
pub mod screen;
pub mod session;
pub mod session_laws;
pub mod startup;
pub mod terminal;
pub mod text;
pub mod thinking;
