//! Verified core of a small container and microVM runtime.
use vstd::prelude::*;

pub mod text;
pub mod cgroup;
pub mod child;
pub mod cli;
pub mod container;
pub mod daemon;
pub mod devices;
pub mod events;
pub mod image;
pub mod network;
pub mod paths;
pub mod probe;
pub mod storage;
pub mod vm;

verus! {

} // verus!
