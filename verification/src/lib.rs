use vstd::prelude::*;

pub mod bytes;
pub mod capture;
pub mod discovery;
pub mod encoder;
pub mod protocol;
pub mod session;

verus! {
} // verus!
