//! The busy-indicator and cancellation primitive.

pub mod loader;
