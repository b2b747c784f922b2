//! The marketing pages' paths.
use vstd::prelude::*;
use vstd::string::*;

verus! {

/// The home page.
pub struct Index {}

/// The terms of service.
pub struct Terms {}

/// The privacy policy.
pub struct Privacy {}

impl Index {
    /// The path of the home page.
    pub fn to_string(&self) -> (p: String)
        ensures
            p@ == "/"@,
    {
        String::from_str("/")
    }
}

impl Terms {
    /// The path of the terms.
    pub fn to_string(&self) -> (p: String)
        ensures
            p@ == "/terms/"@,
    {
        String::from_str("/terms/")
    }
}

impl Privacy {
    /// The path of the privacy policy.
    pub fn to_string(&self) -> (p: String)
        ensures
            p@ == "/privacy/"@,
    {
        String::from_str("/privacy/")
    }
}

} // verus!
