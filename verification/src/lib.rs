//! Resolution of wrapped links: finds the destination that a redirector or
//! interception URL hides, either from the URL alone or from the page it
//! points at, and tracks the progress of that work for a polling user
//! interface.

pub mod browser;
pub mod command;
pub mod entity;
pub mod matcher;
pub mod parts;
pub mod resolve;
pub mod scraper;
pub mod state;
pub mod text;
pub mod trusted;
