//! Work items and the stages that process them.

pub mod item;
pub mod skill;
