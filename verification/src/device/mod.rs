//! The device session's own logic: the feature table, the requests each
//! operation sends, the open sequence, name assembly, configuration
//! export/import and the profile database.

pub mod table;
pub mod session;
pub mod open;
pub mod config;
pub mod profile;
