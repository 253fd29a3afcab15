//! Material-styled toggle widgets (checkbox, switch) as a verified state
//! machine: input events drive the interaction state and the bound value, and
//! token-correlated animations run toward each new value.
use vstd::prelude::*;

pub mod animation;
pub mod checkbox;
pub mod interaction;
pub mod switch;
pub mod theme;
pub mod toggle;

verus! {

} // verus!
