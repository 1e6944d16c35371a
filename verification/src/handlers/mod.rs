//! The screens of the menu state machine.
//!
//! Each screen consumes the session store and an event — the observed
//! outcome of the prompts and service calls the screen's turn made — and
//! produces the next screen, a terminal exit, or a recoverable error paired
//! with a fallback screen. Store writes happen only after the corresponding
//! external call has succeeded.

pub mod auth;
pub mod bumps;
pub mod main;
pub mod project;
pub mod snipe;
pub mod trade;
pub mod wallet;
