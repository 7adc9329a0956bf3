//! A small engine for turn-based, text-driven applications: named scenarios
//! react to lines of input, global commands pre-empt them, and every handler
//! answers with an explicit transition outcome that the engine commits.

pub mod master;
pub mod registry;
pub mod scenario;
pub mod state;
