//! Quality selection, ordered segment reassembly and run coordination for
//! adaptive-bitrate downloads that deliver audio and video as separate
//! segmented tracks.
//!
//! The library decides; the program around it performs the network and file
//! operations that the decisions ask for.

pub mod codec;
pub mod error;
pub mod model;
pub mod select;
pub mod resolve;
pub mod fetch;
pub mod naming;
pub mod pipeline;
