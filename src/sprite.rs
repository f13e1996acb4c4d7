//! Sprites: a descriptor set, the pool it was allocated from, and the
//! uniform buffer that feeds it; and the writes that fill a descriptor set.
use vstd::prelude::*;
use crate::graph::{DestroyCall, Node};
use crate::memory::Buffer;
use crate::vulkan::{GraphError, GraphView, NodeRef, Vulkan};

verus! {

/// The most writes one `DescriptorSetWriter` holds.
pub const MAX_WRITES: usize = 255;

/// The kinds of descriptor that a sprite uses.
#[derive(Clone, Copy, Debug, PartialEq, Eq, Structural)]
pub enum DescriptorType {
    UniformBuffer,
    CombinedImageSampler,
}

/// The pool sizes of a sprite's descriptor pool: three uniform buffers, and
/// a combined image sampler when it is textured.
pub open spec fn pool_sizes(textured: bool) -> Seq<DescriptorType> {
    let u = DescriptorType::UniformBuffer;
    if textured {
        seq![u, u, u, DescriptorType::CombinedImageSampler]
    } else {
        seq![u, u, u]
    }
}

/// The pool sizes of a sprite's descriptor pool, one descriptor each.
pub fn descriptor_pool_sizes(textured: bool) -> (r: Vec<DescriptorType>)
    ensures
        r@ == pool_sizes(textured),
{
    let u = DescriptorType::UniformBuffer;
    let mut r = vec![u, u, u];
    if textured {
        r.push(DescriptorType::CombinedImageSampler);
    }
    proof {
        assert(r@ =~= pool_sizes(textured));
    }
    r
}

/// One write into a descriptor set.
#[derive(Clone, Copy, Debug, PartialEq, Eq, Structural)]
pub enum DescriptorWrite {
    Uniform { desc_set: u64, buffer: u64 },
    Sampler { desc_set: u64, sampler: u64, view: u64 },
}

/// What a write points the descriptor at: a whole buffer, or an image view
/// with its sampler.
#[derive(Clone, Copy, Debug, PartialEq, Eq, Structural)]
pub enum DescriptorInfo {
    Buffer { buffer: u64, offset: u64, range: u64 },
    Image { sampler: u64, view: u64 },
}

/// A write with its binding, ready to hand to the driver.
#[derive(Clone, Copy, Debug, PartialEq, Eq, Structural)]
pub struct DescriptorUpdate {
    pub dst_set: u64,
    pub dst_binding: u32,
    pub descriptor_type: DescriptorType,
    pub info: DescriptorInfo,
}

/// The update for write `w` at binding `i`. A buffer is bound whole: from
/// offset zero over the largest range.
pub open spec fn update_of(w: DescriptorWrite, i: int) -> DescriptorUpdate {
    match w {
        DescriptorWrite::Uniform { desc_set, buffer } => DescriptorUpdate {
            dst_set: desc_set,
            dst_binding: i as u32,
            descriptor_type: DescriptorType::UniformBuffer,
            info: DescriptorInfo::Buffer { buffer, offset: 0, range: u64::MAX },
        },
        DescriptorWrite::Sampler { desc_set, sampler, view } => DescriptorUpdate {
            dst_set: desc_set,
            dst_binding: i as u32,
            descriptor_type: DescriptorType::CombinedImageSampler,
            info: DescriptorInfo::Image { sampler, view },
        },
    }
}

/// Collects the writes of a descriptor set, each at the binding of its
/// position.
pub struct DescriptorSetWriter {
    sets: Vec<DescriptorWrite>,
}

impl View for DescriptorSetWriter {
    type V = Seq<DescriptorWrite>;

    closed spec fn view(&self) -> Seq<DescriptorWrite> {
        self.sets@
    }
}

impl DescriptorSetWriter {
    /// A writer with no write.
    pub fn new() -> (r: Self)
        ensures
            r@ == Seq::<DescriptorWrite>::empty(),
    {
        DescriptorSetWriter { sets: Vec::new() }
    }

    /// Adds a write of a uniform buffer.
    pub fn uniform(self, desc_set: u64, memory: &Buffer) -> (r: Self)
        requires
            self@.len() < MAX_WRITES,
        ensures
            r@ == self@.push(DescriptorWrite::Uniform { desc_set, buffer: memory@.1 }),
    {
        let mut sets = self.sets;
        sets.push(DescriptorWrite::Uniform { desc_set, buffer: memory.buffer() });
        DescriptorSetWriter { sets }
    }

    /// Adds a write of an image sampler.
    pub fn sampler(self, desc_set: u64, tex_sampler: u64, tex_view: u64) -> (r: Self)
        requires
            self@.len() < MAX_WRITES,
        ensures
            r@ == self@.push(DescriptorWrite::Sampler { desc_set, sampler: tex_sampler, view: tex_view }),
    {
        let mut sets = self.sets;
        sets.push(DescriptorWrite::Sampler { desc_set, sampler: tex_sampler, view: tex_view });
        DescriptorSetWriter { sets }
    }

    /// The number of writes collected.
    pub fn len(&self) -> (r: usize)
        ensures
            r == self@.len(),
    {
        self.sets.len()
    }

    /// The updates to hand to the driver: write `i` at binding `i`.
    pub fn update_descriptor_sets(&self) -> (r: Vec<DescriptorUpdate>)
        requires
            self@.len() <= MAX_WRITES,
        ensures
            r@.len() == self@.len(),
            forall|i: int| 0 <= i < r@.len() ==> #[trigger] r@[i] == update_of(self@[i], i),
    {
        let mut r: Vec<DescriptorUpdate> = Vec::new();
        let mut i: usize = 0;
        while i < self.sets.len()
            invariant
                i <= self.sets.len() <= MAX_WRITES,
                r@.len() == i,
                forall|j: int| 0 <= j < i ==> #[trigger] r@[j] == update_of(self@[j], j),
            decreases self.sets.len() - i,
        {
            let u = match self.sets[i] {
                DescriptorWrite::Uniform { desc_set, buffer } => DescriptorUpdate {
                    dst_set: desc_set,
                    dst_binding: i as u32,
                    descriptor_type: DescriptorType::UniformBuffer,
                    info: DescriptorInfo::Buffer { buffer, offset: 0, range: u64::MAX },
                },
                DescriptorWrite::Sampler { desc_set, sampler, view } => DescriptorUpdate {
                    dst_set: desc_set,
                    dst_binding: i as u32,
                    descriptor_type: DescriptorType::CombinedImageSampler,
                    info: DescriptorInfo::Image { sampler, view },
                },
            };
            r.push(u);
            i = i + 1;
        }
        r
    }
}

/// The writes of a sprite's descriptor set: its transform, the camera, the
/// effect if there is one, and the texture's sampler and view if it is
/// textured.
pub fn txuniform(
    desc_set: u64,
    matrix_memory: &Buffer,
    camera_memory: &Buffer,
    effect_memory: Option<&Buffer>,
    texture: Option<(u64, u64)>,
) -> (r: DescriptorSetWriter)
    ensures
        r@ == seq![
            DescriptorWrite::Uniform { desc_set, buffer: matrix_memory@.1 },
            DescriptorWrite::Uniform { desc_set, buffer: camera_memory@.1 },
        ] + match effect_memory {
            Some(m) => seq![DescriptorWrite::Uniform { desc_set, buffer: m@.1 }],
            None => Seq::empty(),
        } + match texture {
            Some((s, v)) => seq![DescriptorWrite::Sampler { desc_set, sampler: s, view: v }],
            None => Seq::empty(),
        },
{
    let mut writer = DescriptorSetWriter::new().uniform(desc_set, matrix_memory).uniform(
        desc_set,
        camera_memory,
    );
    if let Some(memory) = effect_memory {
        writer = writer.uniform(desc_set, memory);
    }
    if let Some((s, v)) = texture {
        writer = writer.sampler(desc_set, s, v);
    }
    proof {
        let head = seq![
            DescriptorWrite::Uniform { desc_set, buffer: matrix_memory@.1 },
            DescriptorWrite::Uniform { desc_set, buffer: camera_memory@.1 },
        ];
        let eff = match effect_memory {
            Some(m) => seq![DescriptorWrite::Uniform { desc_set, buffer: m@.1 }],
            None => Seq::<DescriptorWrite>::empty(),
        };
        let tex = match texture {
            Some((s, v)) => seq![DescriptorWrite::Sampler { desc_set, sampler: s, view: v }],
            None => Seq::<DescriptorWrite>::empty(),
        };
        assert(writer@ =~= head + eff + tex);
    }
    writer
}

/// A render-able instance: a descriptor set with its pool, the uniform
/// buffer it reads, and the pipeline it is drawn with.
pub struct Sprite {
    uniform_memory: Buffer,
    desc: NodeRef,
    desc_set: u64,
    desc_pool: u64,
    pipeline: u64,
    pipeline_layout: u64,
}

/// A sprite as a mathematical value.
pub struct SpriteView {
    /// The graph node of the descriptor set.
    pub desc_node: nat,
    pub desc_set: u64,
    pub desc_pool: u64,
    /// The uniform buffer's view.
    pub uniform: (nat, u64, u64),
    pub pipeline: u64,
    pub pipeline_layout: u64,
}

impl View for Sprite {
    type V = SpriteView;

    closed spec fn view(&self) -> SpriteView {
        SpriteView {
            desc_node: self.desc@,
            desc_set: self.desc_set,
            desc_pool: self.desc_pool,
            uniform: self.uniform_memory@,
            pipeline: self.pipeline,
            pipeline_layout: self.pipeline_layout,
        }
    }
}

impl Sprite {

    /// Takes ownership of an allocated descriptor set and its pool, beside
    /// its uniform buffer. On refusal the buffer is handed back.
    pub fn new(
        vulkan: &mut Vulkan,
        uniform_memory: Buffer,
        desc_set: u64,
        desc_pool: u64,
        pipeline: u64,
        pipeline_layout: u64,
    ) -> (res: Result<Sprite, (GraphError, Buffer)>)
        requires
            old(vulkan).wf(),
        ensures
            final(vulkan).wf(),
            match res {
                Ok(s) => {
                    &&& old(vulkan)@.can_create()
                    &&& s@ == (SpriteView {
                        desc_node: old(vulkan)@.nodes.len(),
                        desc_set,
                        desc_pool,
                        uniform: uniform_memory@,
                        pipeline,
                        pipeline_layout,
                    })
                    &&& final(vulkan)@ == old(vulkan)@.created(Node::Sprite { desc_set, desc_pool })
                },
                Err((e, b)) => {
                    &&& !old(vulkan)@.can_create()
                    &&& e == old(vulkan)@.create_error()
                    &&& b@ == uniform_memory@
                    &&& final(vulkan)@ == old(vulkan)@
                },
            },
    {
        match vulkan.create(Node::Sprite { desc_set, desc_pool }) {
            Ok(desc) => Ok(Sprite { uniform_memory, desc, desc_set, desc_pool, pipeline, pipeline_layout }),
            Err(e) => Err((e, uniform_memory)),
        }
    }

    /// The descriptor set and the pool it came from.
    pub fn handles(&self) -> (r: (u64, u64))
        ensures
            r == (self@.desc_set, self@.desc_pool),
    {
        (self.desc_set, self.desc_pool)
    }

    /// The uniform buffer that the descriptor set reads.
    pub fn uniform_memory(&self) -> (r: &Buffer)
        ensures
            r@ == self@.uniform,
    {
        &self.uniform_memory
    }

    /// The pipeline the sprite is drawn with.
    pub fn pipeline(&self) -> (r: u64)
        ensures
            r == self@.pipeline,
    {
        self.pipeline
    }

    /// The layout of that pipeline.
    pub fn pipeline_layout(&self) -> (r: u64)
        ensures
            r == self@.pipeline_layout,
    {
        self.pipeline_layout
    }

    /// Gives up the sprite: first its descriptor set (whose last release
    /// destroys the pool), then its uniform buffer. Each result is that of
    /// `Vulkan::release` on the graph as the previous release left it.
    pub fn release(self, vulkan: &mut Vulkan) -> (res: (
        Result<Vec<DestroyCall>, GraphError>,
        Result<Vec<DestroyCall>, GraphError>,
    ))
        requires
            old(vulkan).wf(),
        ensures
            final(vulkan).wf(),
            ({
                let d = self@.desc_node as int;
                let b = self@.uniform.0 as int;
                let mid = if res.0 is Ok {
                    old(vulkan)@.released(d)
                } else {
                    old(vulkan)@
                };
                &&& released_as(old(vulkan)@, d, res.0, mid)
                &&& released_as(mid, b, res.1, final(vulkan)@)
            }),
    {
        let first = vulkan.release(self.desc);
        let second = self.uniform_memory.release(vulkan);
        (first, second)
    }
}

/// `res` is what releasing node `i` of `before` returns, leaving `after`.
pub open spec fn released_as(
    before: GraphView,
    i: int,
    res: Result<Vec<DestroyCall>, GraphError>,
    after: GraphView,
) -> bool {
    match res {
        Ok(calls) => {
            &&& before.is_live(i)
            &&& after == before.released(i)
            &&& calls@ == before.release_calls(i)
        },
        Err(e) => {
            &&& !before.is_live(i)
            &&& e == before.release_error(i)
            &&& after == before
        },
    }
}

} // verus!
