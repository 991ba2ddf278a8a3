//! The server's settings: where the store is and which files it serves.

use vstd::prelude::*;

verus! {

/// The settings of the server.
#[derive(Debug)]
pub struct Config {
    pub mongodb_uri: String,
    pub mongodb_db: String,
    pub mongodb_collection: String,
    pub static_files: String,
}

impl Config {
    /// The settings made of the values of the variables `MONGODB_URI`,
    /// `MONGODB_DB`, `MONGODB_COLLECTION` and `STATIC_FILES`.
    pub fn new(
        mongodb_uri: String,
        mongodb_db: String,
        mongodb_collection: String,
        static_files: String,
    ) -> (r: Config)
        ensures
            r.mongodb_uri == mongodb_uri,
            r.mongodb_db == mongodb_db,
            r.mongodb_collection == mongodb_collection,
            r.static_files == static_files,
    {
        Config { mongodb_uri, mongodb_db, mongodb_collection, static_files }
    }
}

impl Clone for Config {
    fn clone(&self) -> (r: Self)
        ensures
            r == *self,
    {
        Config {
            mongodb_uri: self.mongodb_uri.clone(),
            mongodb_db: self.mongodb_db.clone(),
            mongodb_collection: self.mongodb_collection.clone(),
            static_files: self.static_files.clone(),
        }
    }
}

} // verus!
