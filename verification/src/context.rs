//! Where a collection of decks lives.

use vstd::prelude::*;
use vstd::string::StringExecFns;

verus! {

/// The configuration that the storage functions work from.
#[derive(Clone, Debug, PartialEq, Eq)]
pub struct Context {
    pub collection_path: String,
}

impl Context {
    /// A context for the collection in the given directory.
    pub fn new(collection_path: &str) -> (context: Context)
        ensures
            context.collection_path@ == collection_path@,
    {
        Context { collection_path: String::from_str(collection_path) }
    }

    /// The directory that holds the collection's decks.
    pub fn get_collection_path(&self) -> (path: String)
        ensures
            path@ == self.collection_path@,
    {
        self.collection_path.clone()
    }
}

} // verus!
