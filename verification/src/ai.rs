//! The assistant that comments on pages, and what it reads off a page's markup.

pub mod assistant;
pub mod processor;
