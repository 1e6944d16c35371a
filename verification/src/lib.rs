//! Verified control core of a terminal operator console for a trading and
//! automation service.
//!
//! The library models the parts of the console with real engineering risk:
//! the session store shared between the prompt loop and the background
//! refresh task, the menu state machine that sequences screens and recovers
//! from failures, the cancellable-operation primitive that races a slow call
//! against a cancellation signal, and the driver's error routing. Terminal
//! rendering, prompt widgets and the network client live outside the
//! library; they hand plain values in and take plain values back.

pub mod dialogue;
pub mod driver;
pub mod errors;
pub mod handlers;
pub mod keys;
pub mod menu;
pub mod refresh;
pub mod session;
