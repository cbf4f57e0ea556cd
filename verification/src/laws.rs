//! What holds of every build, proved from the models of the other modules.

pub mod builds;
pub mod members;
