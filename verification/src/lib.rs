//! Daily basketball results for a terminal viewer: the navigation state and
//! its transitions, the request for one day's games, and the text of the panel
//! that shows them.
//!
//! The library decides and computes; reading keys, calling the remote service
//! and drawing on the terminal are left to the program around it.

pub mod fetch;
pub mod game;
pub mod moment;
pub mod nav;
pub mod panel;
pub mod text;
