//! What the shell decides: where a typed text leads, how the history moves, what a
//! message of the navigation bar asks for, and what the event loop does next.

pub mod address;
pub mod classifier;
pub mod engine;
pub mod message;
pub mod navigation;
pub mod pages;
