//! State and rules of a terminal browser for a catalog of live streams.

pub mod browser;
pub mod catalog;
pub mod input;
pub mod preview;
pub mod text;
pub mod thumbnail;
pub mod title;
