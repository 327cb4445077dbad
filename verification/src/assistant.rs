//! The research assistant proper: configuration, session state, prompt
//! templates, pipeline nodes and the iteration state machine.

pub mod configuration;
pub mod debate;
pub mod graph;
pub mod parse;
pub mod prompts;
pub mod state;
pub mod text;
pub mod utils;
