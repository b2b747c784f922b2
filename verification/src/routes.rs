//! The paths of the marketing site, one module per part of the site.
pub mod blog;
pub mod docs;
pub mod marketing;

use vstd::prelude::*;

verus! {

/// Where visitors sign in or up.
pub const SIGN_IN_UP: &'static str = "https://app.nails.dev";

} // verus!
