//! Shader modules, owned through the handle graph.
use vstd::prelude::*;
use crate::graph::{DestroyCall, Node};
use crate::vulkan::{GraphError, NodeRef, Vulkan};

verus! {

/// A loaded shader module. Its last release destroys it.
pub struct ShaderModule {
    node: NodeRef,
    module: u64,
}

impl View for ShaderModule {
    type V = (nat, u64);

    closed spec fn view(&self) -> (nat, u64) {
        (self.node@, self.module)
    }
}

impl ShaderModule {
    /// Takes ownership of a created shader module.
    pub fn new(vulkan: &mut Vulkan, module: u64) -> (res: Result<ShaderModule, GraphError>)
        requires
            old(vulkan).wf(),
        ensures
            final(vulkan).wf(),
            match res {
                Ok(r) => {
                    &&& old(vulkan)@.can_create()
                    &&& r@ == (old(vulkan)@.nodes.len(), module)
                    &&& final(vulkan)@ == old(vulkan)@.created(Node::Shader { module })
                },
                Err(e) => {
                    &&& !old(vulkan)@.can_create()
                    &&& e == old(vulkan)@.create_error()
                    &&& final(vulkan)@ == old(vulkan)@
                },
            },
    {
        let node = vulkan.create(Node::Shader { module })?;
        Ok(ShaderModule { node, module })
    }

    /// The native module handle.
    pub fn module(&self) -> (r: u64)
        ensures
            r == self@.1,
    {
        self.module
    }

    /// Gives up this owner; the last one hands out the destroy call.
    pub fn release(self, vulkan: &mut Vulkan) -> (res: Result<Vec<DestroyCall>, GraphError>)
        requires
            old(vulkan).wf(),
        ensures
            final(vulkan).wf(),
            match res {
                Ok(calls) => {
                    &&& old(vulkan)@.is_live(self@.0 as int)
                    &&& final(vulkan)@ == old(vulkan)@.released(self@.0 as int)
                    &&& calls@ == old(vulkan)@.release_calls(self@.0 as int)
                },
                Err(e) => {
                    &&& !old(vulkan)@.is_live(self@.0 as int)
                    &&& e == old(vulkan)@.release_error(self@.0 as int)
                    &&& final(vulkan)@ == old(vulkan)@
                },
            },
    {
        vulkan.release(self.node)
    }
}

} // verus!
