//! Buffers in device memory, owned through the handle graph.
use vstd::prelude::*;
use crate::graph::{DestroyCall, Node};
use crate::vulkan::{GraphError, NodeRef, Vulkan};

verus! {

/// What a buffer is for.
#[derive(Clone, Copy, Debug, PartialEq, Eq, Structural)]
pub enum BufferBuilderType {
    Uniform,
    Vertex,
}

/// The byte size of a buffer of `count` elements of `elem_size` bytes, if
/// it fits in a `u64`.
pub fn buffer_size(elem_size: u64, count: u64) -> (r: Option<u64>)
    ensures
        match r {
            Some(n) => n == elem_size * count,
            None => elem_size * count > u64::MAX,
        },
{
    elem_size.checked_mul(count)
}

/// A buffer and the memory bound to it. Its last release destroys the
/// buffer, then frees the memory.
pub struct Buffer {
    node: NodeRef,
    buffer: u64,
    memory: u64,
}

impl View for Buffer {
    type V = (nat, u64, u64);

    closed spec fn view(&self) -> (nat, u64, u64) {
        (self.node@, self.buffer, self.memory)
    }
}

impl Buffer {
    /// Takes ownership of a created buffer and the memory bound to it.
    pub fn new(vulkan: &mut Vulkan, buffer: u64, memory: u64) -> (res: Result<Buffer, GraphError>)
        requires
            old(vulkan).wf(),
        ensures
            final(vulkan).wf(),
            match res {
                Ok(r) => {
                    &&& old(vulkan)@.can_create()
                    &&& r@ == (old(vulkan)@.nodes.len(), buffer, memory)
                    &&& final(vulkan)@ == old(vulkan)@.created(Node::Buffer { buffer, memory })
                },
                Err(e) => {
                    &&& !old(vulkan)@.can_create()
                    &&& e == old(vulkan)@.create_error()
                    &&& final(vulkan)@ == old(vulkan)@
                },
            },
    {
        let node = vulkan.create(Node::Buffer { buffer, memory })?;
        Ok(Buffer { node, buffer, memory })
    }

    /// The memory handle of this buffer.
    pub fn memory(&self) -> (r: u64)
        ensures
            r == self@.2,
    {
        self.memory
    }

    /// The buffer handle.
    pub fn buffer(&self) -> (r: u64)
        ensures
            r == self@.1,
    {
        self.buffer
    }

    /// A second owner of the same buffer.
    pub fn share(&self, vulkan: &mut Vulkan) -> (res: Result<Buffer, GraphError>)
        requires
            old(vulkan).wf(),
        ensures
            final(vulkan).wf(),
            match res {
                Ok(r) => {
                    &&& old(vulkan)@.is_live(self@.0 as int)
                    &&& r@ == self@
                    &&& final(vulkan)@ == old(vulkan)@.retained(self@.0 as int)
                },
                Err(_) => {
                    &&& !(old(vulkan)@.is_live(self@.0 as int) && old(vulkan)@.refs[self@.0 as int]
                        < usize::MAX)
                    &&& final(vulkan)@ == old(vulkan)@
                },
            },
    {
        let node = vulkan.retain(&self.node)?;
        Ok(Buffer { node, buffer: self.buffer, memory: self.memory })
    }

    /// Gives up this owner; the last one hands out the destroy calls.
    pub fn release(self, vulkan: &mut Vulkan) -> (res: Result<Vec<DestroyCall>, GraphError>)
        requires
            old(vulkan).wf(),
        ensures
            final(vulkan).wf(),
            match res {
                Ok(calls) => {
                    &&& old(vulkan)@.is_live(self@.0 as int)
                    &&& final(vulkan)@ == old(vulkan)@.released(self@.0 as int)
                    &&& calls@ == old(vulkan)@.release_calls(self@.0 as int)
                },
                Err(e) => {
                    &&& !old(vulkan)@.is_live(self@.0 as int)
                    &&& e == old(vulkan)@.release_error(self@.0 as int)
                    &&& final(vulkan)@ == old(vulkan)@
                },
            },
    {
        vulkan.release(self.node)
    }
}

/// A value kept beside the uniform buffer that holds its copy on the device.
pub struct Memory<T> {
    pub data: T,
    pub buffer: Buffer,
}

impl<T> Memory<T> {
    /// Pairs a value with the buffer that holds it.
    pub fn new(data: T, buffer: Buffer) -> (r: Memory<T>)
        ensures
            r.data == data,
            r.buffer@ == buffer@,
    {
        Memory { data, buffer }
    }
}

} // verus!
