//! What the store decides when it saves a document by key.

use vstd::prelude::*;

verus! {

/// The database that the records are kept in.
pub const TABLE_NAME: &'static str = "drugbank";

/// The collection that canonical records are saved to.
pub const FILTER_COLLECTION: &'static str = "filter_properties";

/// The field stamped with the time of every save.
pub const KEY_UPDATE_TIME: &'static str = "updateTime";

/// The field stamped with the time of the first save.
pub const KEY_CREATE_TIME: &'static str = "createTime";

/// The document store that canonical records are saved to.
#[derive(Debug, Clone, Copy, PartialEq, Eq)]
pub struct Db;

/// What a save by key does once the store has said whether a document under
/// that key exists.
#[derive(Debug, Clone, Copy, PartialEq, Eq)]
pub enum SaveStep {
    /// Overwrite the existing document's fields; stamp the update time.
    Update,
    /// Insert a new document; stamp both the creation and the update time.
    Insert,
}

impl SaveStep {
    /// Whether this step stamps the creation time.
    pub open spec fn stamps_create_time(self) -> bool {
        self is Insert
    }

    /// Whether the document gets the creation time.
    pub fn sets_create_time(self) -> (r: bool)
        ensures
            r == self.stamps_create_time(),
    {
        match self {
            SaveStep::Update => false,
            SaveStep::Insert => true,
        }
    }
}

impl Db {
    /// The step of a save by key: update when a document under the key was
    /// found, insert otherwise. So a second save under the same key updates
    /// and never adds a document.
    pub fn save_step(found: bool) -> (r: SaveStep)
        ensures
            found ==> r == SaveStep::Update,
            !found ==> r == SaveStep::Insert,
    {
        if found {
            SaveStep::Update
        } else {
            SaveStep::Insert
        }
    }
}

} // verus!
