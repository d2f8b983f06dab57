//! Acquisition of a target number of uniquely identified remote resources by
//! random probing of a large, sparse identifier range.
//!
//! The crate holds the decisions of such a run: which identifiers are drawn,
//! how a response is judged, how the outcomes of a batch are folded into the
//! running tally, and when the run is over. Network, storage and timing are
//! left to the caller, who hands plain values in and takes plain values back.

pub mod attempted;
pub mod config;
pub mod coordinator;
pub mod engine;
pub mod fetcher;
pub mod outcome;
pub mod report;
pub mod sampler;
pub mod stats;
pub mod text;
