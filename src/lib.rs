//! A personal weather monitor for the Bureau of Meteorology's data.
//!
//! The library decides when each feed of a location (observations, hourly and daily
//! forecasts, warnings) is due, reconciles what was fetched, projects the current
//! conditions and fills in user format strings. For radar imagery it reads and writes the
//! bureau's file names, decides how to catch up with the remote directory, composes frames
//! and prunes them. Fetching, storage and display are left to the caller.

use vstd::prelude::*;

pub mod acquire;
pub mod config;
pub mod current;
pub mod daily;
pub mod descriptor;
pub mod frames;
pub mod hourly;
pub mod location;
pub mod observation;
pub mod radar;
pub mod search;
pub mod station;
pub mod table;
pub mod template;
pub mod text;
pub mod time;
pub mod util;
pub mod warning;
pub mod weather;

verus! {

} // verus!
