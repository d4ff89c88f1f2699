use vstd::prelude::*;

pub mod notify;
pub mod scheduler;
pub mod runtime;
pub mod waker;

verus! {

} // verus!
