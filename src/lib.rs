use vstd::prelude::*;

pub mod frame_loop;
pub mod history;
pub mod pipeline;
pub mod startup;
pub mod surface;

verus! {

} // verus!
