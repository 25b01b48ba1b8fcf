//! The logic of a small two-window web browser shell: the history of a content view,
//! the rule that tells an address from a search query, the messages of the navigation
//! bar, the decisions of the event loop, and an assistant that reads pages.

pub mod ai;
pub mod browser;
pub mod text;
