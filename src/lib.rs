//! A histogram aggregation engine over columnar event data: derived columns,
//! filtered views, bin mapping, a named histogram registry and a scheduler
//! that fills every histogram of a view in one pass over that view's rows.
use vstd::prelude::*;

pub mod bins;
pub mod dataset;
pub mod error;
pub mod registry;
pub mod expr;
pub mod histogram_script;
pub mod sample;
pub mod scheduler;
pub mod workspace;

verus! {

} // verus!
