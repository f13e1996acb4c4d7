//! The handle graph: a root context that owns a set of reference-counted
//! driver objects, each tagged with the kind of object it wraps.
//!
//! The graph never calls the driver itself. Every operation that ends an
//! object's life returns the destroy calls to make, in order, and records
//! them in a ghost log, over which the ordering laws are stated.
use vstd::prelude::*;

verus! {

/// One native destroy (or unload) call, with the handle it releases.
#[derive(Clone, Copy, Debug, PartialEq, Eq, Structural)]
pub enum DestroyCall {
    DestroyImage(u64),
    DestroyBuffer(u64),
    FreeMemory(u64),
    DestroyDescriptorPool(u64),
    DestroyPipeline(u64),
    DestroyPipelineLayout(u64),
    DestroyDescriptorSetLayout(u64),
    DestroyFence(u64),
    DestroyShaderModule(u64),
    DestroySemaphore(u64),
    DestroyFramebuffer(u64),
    DestroyImageView(u64),
    DestroyRenderPass(u64),
    DestroySwapchain(u64),
    DestroySampler(u64),
    DestroyCommandPool(u64),
    DestroySurface(u64),
    DestroyDevice(u64),
    DestroyInstance(u64),
    UnloadLibrary(u64),
}

/// A driver object owned by the graph, with the auxiliary handles that its
/// destruction needs.
#[derive(Clone, Copy, Debug, PartialEq, Eq, Structural)]
pub enum Node {
    Image { image: u64, memory: u64 },
    Buffer { buffer: u64, memory: u64 },
    Sprite { desc_set: u64, desc_pool: u64 },
    Style { pipeline: u64, pipeline_layout: u64, descset_layout: u64 },
    Fence { fence: u64 },
    Shader { module: u64 },
}

/// The destroy calls that end a node, dependent resource first and backing
/// memory or pool last.
pub open spec fn destroy_plan(n: Node) -> Seq<DestroyCall> {
    match n {
        Node::Image { image, memory } => seq![
            DestroyCall::DestroyImage(image),
            DestroyCall::FreeMemory(memory),
        ],
        Node::Buffer { buffer, memory } => seq![
            DestroyCall::DestroyBuffer(buffer),
            DestroyCall::FreeMemory(memory),
        ],
        Node::Sprite { desc_pool, .. } => seq![DestroyCall::DestroyDescriptorPool(desc_pool)],
        Node::Style { pipeline, pipeline_layout, descset_layout } => seq![
            DestroyCall::DestroyPipeline(pipeline),
            DestroyCall::DestroyPipelineLayout(pipeline_layout),
            DestroyCall::DestroyDescriptorSetLayout(descset_layout),
        ],
        Node::Fence { fence } => seq![DestroyCall::DestroyFence(fence)],
        Node::Shader { module } => seq![DestroyCall::DestroyShaderModule(module)],
    }
}

/// The destroy calls for a node, in the order in which they must be made.
pub fn destroy_calls(n: &Node) -> (r: Vec<DestroyCall>)
    ensures
        r@ == destroy_plan(*n),
{
    let r = match *n {
        Node::Image { image, memory } => vec![
            DestroyCall::DestroyImage(image),
            DestroyCall::FreeMemory(memory),
        ],
        Node::Buffer { buffer, memory } => vec![
            DestroyCall::DestroyBuffer(buffer),
            DestroyCall::FreeMemory(memory),
        ],
        Node::Sprite { desc_pool, .. } => vec![DestroyCall::DestroyDescriptorPool(desc_pool)],
        Node::Style { pipeline, pipeline_layout, descset_layout } => vec![
            DestroyCall::DestroyPipeline(pipeline),
            DestroyCall::DestroyPipelineLayout(pipeline_layout),
            DestroyCall::DestroyDescriptorSetLayout(descset_layout),
        ],
        Node::Fence { fence } => vec![DestroyCall::DestroyFence(fence)],
        Node::Shader { module } => vec![DestroyCall::DestroyShaderModule(module)],
    };
    proof {
        assert(r@ =~= destroy_plan(*n));
    }
    r
}

/// The objects that exist once a logical device has been created.
#[derive(Clone, Copy, Debug, PartialEq, Eq, Structural)]
pub struct DeviceContext {
    pub gpu: u64,
    pub pqi: u32,
    pub sampled: bool,
    pub device: u64,
    pub command_pool: u64,
    pub command_buffer: u64,
    pub sampler: u64,
}

/// The root context's own handles: the loaded library, the instance, and,
/// once they exist, the surface and the device.
#[derive(Clone, Copy, Debug, PartialEq, Eq, Structural)]
pub struct VulkanContext {
    pub library: u64,
    pub instance: u64,
    pub surface: Option<u64>,
    pub device: Option<DeviceContext>,
}

/// The root's teardown: sampler, command pool, surface, device, instance,
/// library, leaving out what was never created.
pub open spec fn teardown_plan(c: VulkanContext) -> Seq<DestroyCall> {
    let front = match c.device {
        Some(d) => seq![
            DestroyCall::DestroySampler(d.sampler),
            DestroyCall::DestroyCommandPool(d.command_pool),
        ],
        None => Seq::empty(),
    };
    let surface = match c.surface {
        Some(s) => seq![DestroyCall::DestroySurface(s)],
        None => Seq::empty(),
    };
    let device = match c.device {
        Some(d) => seq![DestroyCall::DestroyDevice(d.device)],
        None => Seq::empty(),
    };
    front + surface + device + seq![
        DestroyCall::DestroyInstance(c.instance),
        DestroyCall::UnloadLibrary(c.library),
    ]
}

/// The root's teardown calls, in the order in which they must be made.
pub fn teardown_calls(c: &VulkanContext) -> (r: Vec<DestroyCall>)
    ensures
        r@ == teardown_plan(*c),
{
    let mut r: Vec<DestroyCall> = Vec::new();
    if let Some(d) = c.device {
        r.push(DestroyCall::DestroySampler(d.sampler));
        r.push(DestroyCall::DestroyCommandPool(d.command_pool));
    }
    if let Some(s) = c.surface {
        r.push(DestroyCall::DestroySurface(s));
    }
    if let Some(d) = c.device {
        r.push(DestroyCall::DestroyDevice(d.device));
    }
    r.push(DestroyCall::DestroyInstance(c.instance));
    r.push(DestroyCall::UnloadLibrary(c.library));
    proof {
        assert(r@ =~= teardown_plan(*c));
    }
    r
}

} // verus!
