//! Picks one image that has not been posted yet, turns the downloaded image
//! into a post, and records what became of it.
//!
//! The library holds the decisions: the licence catalogue, the status codes,
//! the semantics of the image index, the checks on a download, the composed
//! post, and the state machine that drives one run. The surrounding program
//! performs the network and database work and reports back what happened.

pub mod cli;
pub mod fetch;
pub mod pipeline;
pub mod post;
pub mod store;
pub mod types;
