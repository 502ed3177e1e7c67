//! Execution core of an image-inference pipeline: work items, the skill
//! lifecycle with its state protocol, and the result carrier.

pub mod ident;
pub mod inference;
pub mod json;
pub mod signals;
