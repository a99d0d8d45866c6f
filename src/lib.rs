//! The controller of an interactive file merger: a focus cycle over five
//! panels, selection of loaded files, token counts that finish in the
//! background in any order, and the requests it hands to its host (reload,
//! merge, exit).

use vstd::prelude::*;

pub mod controller;
pub mod layout;
pub mod panel;
pub mod reload;
pub mod status;

verus! {

} // verus!
