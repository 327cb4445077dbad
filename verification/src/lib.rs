//! An iterative web-research pipeline: given a topic it generates a search
//! query, retrieves results, summarizes them and reflects on knowledge gaps,
//! over a bounded number of loops, optionally running two independent
//! "debate" tracks.  The orchestration, the session state model and all
//! text shaping are verified; the network gateways (language model and web
//! search) are driven from outside through a small action/reply protocol.

pub mod assistant;
pub mod configuration;
pub mod graph;
pub mod server;
