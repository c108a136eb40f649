use vstd::prelude::*;

pub mod buffer;
pub mod caps;
pub mod context;
pub mod error;
pub mod logger;
pub mod select;
pub mod transfer;

pub use error::GpuError;

verus! {

} // verus!
