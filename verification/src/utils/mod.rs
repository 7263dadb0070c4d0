//! Small helpers shared by the other modules.

pub mod registry;
pub mod text;
pub mod timespan;
