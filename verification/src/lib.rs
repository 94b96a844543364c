//! Health scanner for source repositories.
//!
//! A scan walks through a repository ([`walk`], [`largest`]), reads a few files
//! in its root ([`checks`]) and searches its files for secrets ([`secrets`]).
//! What it finds becomes a list of checks with severities, and a score
//! ([`scan`], [`severity`]), which can be compared with an earlier scan
//! ([`baseline`]), written as a report ([`report`]) and shown in a terminal
//! ([`state`], [`screen`]).

pub mod baseline;
pub mod checks;
pub mod largest;
pub mod model;
pub mod report;
pub mod scan;
pub mod screen;
pub mod secrets;
pub mod severity;
pub mod size;
pub mod state;
pub mod text;
pub mod walk;
