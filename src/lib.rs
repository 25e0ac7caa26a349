pub mod catalog;
pub mod config;
pub mod diagnostic;
pub mod exclude;
pub mod format;
pub mod model;
pub mod resolve;
