//! Fences, owned through the handle graph.
use vstd::prelude::*;
use crate::graph::{DestroyCall, Node};
use crate::vulkan::{GraphError, NodeRef, Vulkan};

verus! {

/// A fence that the graph owns: destroyed when its last reference is
/// released.
pub struct Fence {
    node: NodeRef,
    fence: u64,
}

impl View for Fence {
    type V = (nat, u64);

    closed spec fn view(&self) -> (nat, u64) {
        (self.node@, self.fence)
    }
}

impl Fence {
    /// Takes ownership of a created fence.
    pub fn new(vulkan: &mut Vulkan, fence: u64) -> (res: Result<Fence, GraphError>)
        requires
            old(vulkan).wf(),
        ensures
            final(vulkan).wf(),
            match res {
                Ok(f) => {
                    &&& old(vulkan)@.can_create()
                    &&& f@ == (old(vulkan)@.nodes.len(), fence)
                    &&& final(vulkan)@ == old(vulkan)@.created(Node::Fence { fence })
                },
                Err(e) => {
                    &&& !old(vulkan)@.can_create()
                    &&& e == old(vulkan)@.create_error()
                    &&& final(vulkan)@ == old(vulkan)@
                },
            },
    {
        let node = vulkan.create(Node::Fence { fence })?;
        Ok(Fence { node, fence })
    }

    /// The native fence handle.
    pub fn fence(&self) -> (r: u64)
        ensures
            r == self@.1,
    {
        self.fence
    }

    /// A second owner of the same fence.
    pub fn share(&self, vulkan: &mut Vulkan) -> (res: Result<Fence, GraphError>)
        requires
            old(vulkan).wf(),
        ensures
            final(vulkan).wf(),
            match res {
                Ok(f) => {
                    &&& old(vulkan)@.is_live(self@.0 as int)
                    &&& f@ == self@
                    &&& final(vulkan)@ == old(vulkan)@.retained(self@.0 as int)
                },
                Err(_) => {
                    &&& !(old(vulkan)@.is_live(self@.0 as int) && old(vulkan)@.refs[self@.0 as int]
                        < usize::MAX)
                    &&& final(vulkan)@ == old(vulkan)@
                },
            },
    {
        let node = vulkan.retain(&self.node)?;
        Ok(Fence { node, fence: self.fence })
    }

    /// Gives up this owner; the last one hands out the destroy call.
    pub fn release(self, vulkan: &mut Vulkan) -> (res: Result<Vec<DestroyCall>, GraphError>)
        requires
            old(vulkan).wf(),
        ensures
            final(vulkan).wf(),
            match res {
                Ok(calls) => {
                    &&& old(vulkan)@.is_live(self@.0 as int)
                    &&& final(vulkan)@ == old(vulkan)@.released(self@.0 as int)
                    &&& calls@ == old(vulkan)@.release_calls(self@.0 as int)
                },
                Err(e) => {
                    &&& !old(vulkan)@.is_live(self@.0 as int)
                    &&& e == old(vulkan)@.release_error(self@.0 as int)
                    &&& final(vulkan)@ == old(vulkan)@
                },
            },
    {
        vulkan.release(self.node)
    }
}

} // verus!
