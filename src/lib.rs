//! Row selection, schedule validation and fit planning for linear regression
//! trained by gradient descent.

use vstd::prelude::*;

pub mod batch;
pub mod model;
pub mod schedule;

verus! {

} // verus!
