//! A text field with a popup of suggestions filtered by the field's text.
//!
//! `filter` decides which candidates the popup lists; `dropdown` holds the box's
//! settings and what one frame does with focus, clicks and Enter.

use vstd::prelude::*;

pub mod dropdown;
pub mod filter;

verus! {

} // verus!
