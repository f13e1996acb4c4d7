//! Images with their bound memory, owned through the handle graph.
use vstd::prelude::*;
use crate::graph::{DestroyCall, Node};
use crate::vulkan::{GraphError, NodeRef, Vulkan};

verus! {

/// An image and the memory bound to it. Its last release destroys the
/// image, then frees the memory.
pub struct Image {
    node: NodeRef,
    image: u64,
    memory: u64,
}

impl View for Image {
    type V = (nat, u64, u64);

    closed spec fn view(&self) -> (nat, u64, u64) {
        (self.node@, self.image, self.memory)
    }
}

impl Image {
    /// Takes ownership of a created image and the memory bound to it.
    pub fn new(vulkan: &mut Vulkan, image: u64, memory: u64) -> (res: Result<Image, GraphError>)
        requires
            old(vulkan).wf(),
        ensures
            final(vulkan).wf(),
            match res {
                Ok(r) => {
                    &&& old(vulkan)@.can_create()
                    &&& r@ == (old(vulkan)@.nodes.len(), image, memory)
                    &&& final(vulkan)@ == old(vulkan)@.created(Node::Image { image, memory })
                },
                Err(e) => {
                    &&& !old(vulkan)@.can_create()
                    &&& e == old(vulkan)@.create_error()
                    &&& final(vulkan)@ == old(vulkan)@
                },
            },
    {
        let node = vulkan.create(Node::Image { image, memory })?;
        Ok(Image { node, image, memory })
    }

    /// The image handle and its memory handle.
    pub fn image(&self) -> (r: (u64, u64))
        ensures
            r == (self@.1, self@.2),
    {
        (self.image, self.memory)
    }

    /// The memory handle of this image.
    pub fn memory(&self) -> (r: u64)
        ensures
            r == self@.2,
    {
        self.memory
    }

    /// A second owner of the same image.
    pub fn share(&self, vulkan: &mut Vulkan) -> (res: Result<Image, GraphError>)
        requires
            old(vulkan).wf(),
        ensures
            final(vulkan).wf(),
            match res {
                Ok(r) => {
                    &&& old(vulkan)@.is_live(self@.0 as int)
                    &&& r@ == self@
                    &&& final(vulkan)@ == old(vulkan)@.retained(self@.0 as int)
                },
                Err(_) => {
                    &&& !(old(vulkan)@.is_live(self@.0 as int) && old(vulkan)@.refs[self@.0 as int]
                        < usize::MAX)
                    &&& final(vulkan)@ == old(vulkan)@
                },
            },
    {
        let node = vulkan.retain(&self.node)?;
        Ok(Image { node, image: self.image, memory: self.memory })
    }

    /// Gives up this owner; the last one hands out the destroy calls.
    pub fn release(self, vulkan: &mut Vulkan) -> (res: Result<Vec<DestroyCall>, GraphError>)
        requires
            old(vulkan).wf(),
        ensures
            final(vulkan).wf(),
            match res {
                Ok(calls) => {
                    &&& old(vulkan)@.is_live(self@.0 as int)
                    &&& final(vulkan)@ == old(vulkan)@.released(self@.0 as int)
                    &&& calls@ == old(vulkan)@.release_calls(self@.0 as int)
                },
                Err(e) => {
                    &&& !old(vulkan)@.is_live(self@.0 as int)
                    &&& e == old(vulkan)@.release_error(self@.0 as int)
                    &&& final(vulkan)@ == old(vulkan)@
                },
            },
    {
        vulkan.release(self.node)
    }
}

} // verus!
