//! Action dispatch engine for a remotely controlled input device and display.
use vstd::prelude::*;

pub mod config;
pub mod device;
pub mod drag;
pub mod keys;
pub mod outside;
pub mod queue;
pub mod run;
pub mod session;
pub mod types;
pub mod text;

verus! {

} // verus!
