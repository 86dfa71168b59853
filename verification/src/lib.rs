//! Table viewer core: resolving table locations, parsing partition
//! specifications, planning table registration and queries, and the scroll
//! state of the full-screen pager.

pub mod args;
pub mod cli;
pub mod context;
pub mod error;
pub mod export;
pub mod location;
pub mod partitions;
pub mod query;
pub mod script;
pub mod state;
pub mod store;
pub mod table;
pub mod text;
pub mod tui;
pub mod utils;
