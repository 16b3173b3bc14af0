//! The resolved configuration the catalog works with.
use vstd::prelude::*;

verus! {

/// File name of the catalog database inside the configuration directory.
pub const DEFAULT_DB_NAME: &'static str = "find_videos.sqlite";

/// Resolved settings: the configured database name and the path of the
/// catalog database.
#[derive(Debug, Clone)]
pub struct Settings {
    pub db_name: String,
    pub db_path: String,
}

} // verus!
