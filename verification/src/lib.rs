//! Gapless streaming of a synthesized tone to a USB isochronous endpoint.
//!
//! The crate holds the rules of the pipeline: how a buffer is filled from the
//! sample clock, what a native transfer descriptor must contain, the life of a
//! single submission, and the ring that keeps a fixed number of transfers in
//! flight. These rules are verified. What is taken on trust of the crates
//! underneath stands in `native`; the calls that move bytes over the bus are
//! made by the program that embeds this library.

pub mod config;
pub mod device;
pub mod error;
pub mod laws;
pub mod native;
pub mod pump;
pub mod ring;
pub mod signal;
pub mod submission;
pub mod transfer;
