//! The configuration: what is accepted, and what is prepared from it.

pub mod hosts;
pub mod icon;
pub mod paths;
pub mod prepare;
pub mod schema;
