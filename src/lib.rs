//! System-call entry layer of a small capability kernel: argument validation,
//! handle resolution, dispatch, result encoding and the per-core guard.
use vstd::prelude::*;

pub mod error;
pub mod usercopy;
pub mod scheme;
pub mod number;
pub mod kernel;
pub mod backend;
pub mod dispatch;
pub mod percpu;
pub mod trace;
pub mod serial;
pub mod display;
pub mod debug;

verus! {

} // verus!
