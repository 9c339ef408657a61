//! Stage lifecycle for package collections: versioned collections of packages,
//! named stages that point at a resolved environment snapshot, and the rule
//! that at most one stage of each name and URI is active.

pub mod launch;
pub mod lifecycle;
pub mod manager;
pub mod model;
pub mod names;
pub mod object_id;
pub mod queries;
pub mod snapshot;
pub mod store;
