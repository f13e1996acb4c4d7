//! Handle lifetimes and dispatch tables for a driver-style graphics API.
//!
//! The driver's entry points are resolved by name into dispatch tables, one
//! for the instance and one for the device. The objects created through
//! them live in a graph owned by the root context. Each node is counted and
//! tagged with its kind. The graph decides when a node, and finally the root,
//! must be destroyed, and in which order the destroy calls come. The caller
//! makes the calls.
use vstd::prelude::*;

pub mod acquire;
pub mod device;
pub mod dispatch;
pub mod fence;
pub mod graph;
pub mod history;
pub mod image;
pub mod instance;
pub mod memory;
pub mod shader;
pub mod sprite;
pub mod swapchain;
pub mod vulkan;

verus! {

} // verus!
