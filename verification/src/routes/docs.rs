//! The docs path.
use vstd::prelude::*;
use vstd::string::*;

verus! {

/// The index of the docs.
pub struct Index {}

impl Index {
    /// The path of the index.
    pub fn to_string(&self) -> (p: String)
        ensures
            p@ == "/docs/"@,
    {
        String::from_str("/docs/")
    }
}

} // verus!
