//! The blog path.
use vstd::prelude::*;
use vstd::string::*;

verus! {

/// The index of the blog.
pub struct Index {}

impl Index {
    /// The path of the index.
    pub fn to_string(&self) -> (p: String)
        ensures
            p@ == "/blog/"@,
    {
        String::from_str("/blog/")
    }
}

} // verus!
