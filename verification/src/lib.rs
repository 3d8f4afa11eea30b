//! The decision core of a message-pipeline driver, and of the start-up
//! routine that precedes it, with every decision proved.
//!
//! The driver reads items from a source and hands each one to a scheduler,
//! without waiting for the work it hands out, until a shutdown signal fires
//! or the source and the signal are both spent. Waiting, spawning and file
//! access are the caller's business: the library is told what happened and
//! answers what to do next.

pub mod bootstrap;
pub mod error;
pub mod laws;
pub mod pipeline;
pub mod text;
pub mod trace;
