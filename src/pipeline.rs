//! The pipeline and binding builder: the kernel blob check, the two-binding
//! descriptor layout, the descriptor writes onto the working buffers, and the
//! pipeline's registration and teardown.

use vstd::prelude::*;
use crate::bytes::{bytes_to_words, decode_words};
use crate::context::{LifecycleError, LogicalDevice, TeardownStep, registered, release_allowed, released};
use crate::resource::{StagedSSBO, StagedUBO};

verus! {

/// The first word of every kernel blob.
pub const KERNEL_MAGIC: u32 = 0x0723_0203;

/// The kernel's entry point.
pub const ENTRY_POINT: &'static str = "main";

/// Shader stage bit of the compute stage (`VK_SHADER_STAGE_COMPUTE_BIT`).
pub const STAGE_COMPUTE: u32 = 0x20;

/// The descriptor sets the pool is sized for.
pub const POOL_MAX_SETS: u32 = 2;

#[derive(Debug, Clone, Copy, PartialEq, Eq, Structural)]
pub enum PipelineError {
    /// The blob is empty, not a whole number of words, or lacks the magic word.
    MalformedKernel,
}

#[derive(Debug, Clone, Copy, PartialEq, Eq, Structural)]
pub enum DescriptorKind {
    /// Read-only parameters.
    UniformBuffer,
    /// Read-write results.
    StorageBuffer,
}

/// One slot of the descriptor-set layout.
#[derive(Debug, Clone, Copy, PartialEq, Eq, Structural)]
pub struct DescriptorBinding {
    pub binding: u32,
    pub kind: DescriptorKind,
    pub count: u32,
    pub stages: u32,
}

/// How many descriptors of a kind the pool holds.
#[derive(Debug, Clone, Copy, PartialEq, Eq, Structural)]
pub struct PoolSize {
    pub kind: DescriptorKind,
    pub count: u32,
}

/// One descriptor write: slot `binding` points at `buffer`, bytes `0..range`.
#[derive(Debug, Clone, Copy, PartialEq, Eq, Structural)]
pub struct DescriptorWrite {
    pub binding: u32,
    pub kind: DescriptorKind,
    pub buffer: u64,
    pub range: u64,
}

/// The driver handles of a built pipeline, as raw values.
#[derive(Debug, Clone, Copy, PartialEq, Eq, Structural)]
pub struct PipelineHandles {
    pub pipeline: u64,
    pub layout: u64,
    pub set_layout: u64,
    pub pool: u64,
    pub set: u64,
}

/// A blob is a kernel: whole words, at least one, the first the magic word.
pub open spec fn kernel_ok(code: Seq<u8>) -> bool {
    code.len() > 0 && code.len() % 4 == 0 && bytes_to_words(code)[0] == KERNEL_MAGIC
}

pub open spec fn layout_bindings() -> Seq<DescriptorBinding> {
    seq![
        DescriptorBinding { binding: 0, kind: DescriptorKind::UniformBuffer, count: 1, stages: STAGE_COMPUTE },
        DescriptorBinding { binding: 1, kind: DescriptorKind::StorageBuffer, count: 1, stages: STAGE_COMPUTE },
    ]
}

pub open spec fn layout_pool_sizes() -> Seq<PoolSize> {
    seq![
        PoolSize { kind: DescriptorKind::UniformBuffer, count: 1 },
        PoolSize { kind: DescriptorKind::StorageBuffer, count: 1 },
    ]
}

/// Slot 0 reads the parameter working buffer, slot 1 the result working
/// buffer, each over its full byte size.
pub open spec fn writes_for(ubo_working: u64, ubo_size: usize, ssbo_working: u64, ssbo_size: usize) -> Seq<DescriptorWrite> {
    seq![
        DescriptorWrite { binding: 0, kind: DescriptorKind::UniformBuffer, buffer: ubo_working, range: ubo_size as u64 },
        DescriptorWrite { binding: 1, kind: DescriptorKind::StorageBuffer, buffer: ssbo_working, range: ssbo_size as u64 },
    ]
}

/// The teardown of a pipeline: free the set, destroy the pool, the pipeline
/// layout, the set layout, then the pipeline.
pub open spec fn pipeline_teardown_steps(h: PipelineHandles) -> Seq<TeardownStep> {
    seq![
        TeardownStep::FreeDescriptorSet { pool: h.pool, set: h.set },
        TeardownStep::DestroyDescriptorPool(h.pool),
        TeardownStep::DestroyPipelineLayout(h.layout),
        TeardownStep::DestroyDescriptorSetLayout(h.set_layout),
        TeardownStep::DestroyPipeline(h.pipeline),
    ]
}

/// The kernel blob as the words a shader module is made of.
pub fn create_shader_module(code: &[u8]) -> (r: Result<Vec<u32>, PipelineError>)
    ensures
        r is Ok <==> kernel_ok(code@),
        r matches Ok(words) ==> words@ == bytes_to_words(code@) && 4 * words@.len() == code@.len(),
        r matches Err(e) ==> e == PipelineError::MalformedKernel,
{
    if code.len() == 0 || code.len() % 4 != 0 {
        return Err(PipelineError::MalformedKernel);
    }
    let words = decode_words(code);
    if words[0] != KERNEL_MAGIC {
        return Err(PipelineError::MalformedKernel);
    }
    Ok(words)
}

/// The two slots of the descriptor-set layout, both visible to the compute stage only.
pub fn descriptor_bindings() -> (r: Vec<DescriptorBinding>)
    ensures
        r@ == layout_bindings(),
{
    let r = vec![
        DescriptorBinding { binding: 0, kind: DescriptorKind::UniformBuffer, count: 1, stages: STAGE_COMPUTE },
        DescriptorBinding { binding: 1, kind: DescriptorKind::StorageBuffer, count: 1, stages: STAGE_COMPUTE },
    ];
    assert(r@ =~= layout_bindings());
    r
}

/// The descriptor pool: one descriptor of each kind.
pub fn pool_sizes() -> (r: Vec<PoolSize>)
    ensures
        r@ == layout_pool_sizes(),
{
    let r = vec![
        PoolSize { kind: DescriptorKind::UniformBuffer, count: 1 },
        PoolSize { kind: DescriptorKind::StorageBuffer, count: 1 },
    ];
    assert(r@ =~= layout_pool_sizes());
    r
}

/// The descriptor writes binding the working (never the staging) buffers.
pub fn descriptor_writes(ubo: &StagedUBO, ssbo: &StagedSSBO) -> (r: Vec<DescriptorWrite>)
    ensures
        r@ == writes_for(ubo.buffer@.buffers.working, ubo.buffer@.layout.size,
            ssbo.buffer@.buffers.working, ssbo.buffer@.layout.size),
{
    let r = vec![
        DescriptorWrite {
            binding: 0,
            kind: DescriptorKind::UniformBuffer,
            buffer: ubo.get_ubo(),
            range: ubo.get_size() as u64,
        },
        DescriptorWrite {
            binding: 1,
            kind: DescriptorKind::StorageBuffer,
            buffer: ssbo.get_ssbo(),
            range: ssbo.get_size() as u64,
        },
    ];
    assert(r@ =~= writes_for(ubo.buffer@.buffers.working, ubo.buffer@.layout.size,
        ssbo.buffer@.buffers.working, ssbo.buffer@.layout.size));
    r
}

/// A compute pipeline bound to one parameter and one result resource.
pub struct Pipeline {
    pub id: u64,
    pub handles: PipelineHandles,
    /// What the descriptor set was written with at construction.
    pub writes: Vec<DescriptorWrite>,
}

impl Pipeline {
    /// Registers a built pipeline with the context; its descriptor set was
    /// written with `descriptor_writes(ubo, ssbo)`.
    pub fn new(logical: &mut LogicalDevice, handles: PipelineHandles, ubo: &StagedUBO, ssbo: &StagedSSBO) -> (r: Result<Pipeline, LifecycleError>)
        ensures
            r matches Ok(p) ==> p.id == old(logical)@.next_id && p.handles == handles
                && p.writes@ == writes_for(ubo.buffer@.buffers.working, ubo.buffer@.layout.size,
                    ssbo.buffer@.buffers.working, ssbo.buffer@.layout.size)
                && final(logical)@ == registered(old(logical)@),
            r is Ok <==> old(logical)@.open && old(logical)@.next_id < u64::MAX,
            !old(logical)@.open ==> r == Err::<Pipeline, LifecycleError>(LifecycleError::ContextDestroyed),
            r is Err ==> final(logical)@ == old(logical)@,
    {
        let writes = descriptor_writes(ubo, ssbo);
        match logical.register() {
            Ok(id) => Ok(Pipeline { id, handles, writes }),
            Err(e) => Err(e),
        }
    }

    /// The driver calls that destroy this pipeline, in order.
    pub fn teardown_steps(&self) -> (r: Vec<TeardownStep>)
        ensures
            r@ == pipeline_teardown_steps(self.handles),
    {
        let h = self.handles;
        let r = vec![
            TeardownStep::FreeDescriptorSet { pool: h.pool, set: h.set },
            TeardownStep::DestroyDescriptorPool(h.pool),
            TeardownStep::DestroyPipelineLayout(h.layout),
            TeardownStep::DestroyDescriptorSetLayout(h.set_layout),
            TeardownStep::DestroyPipeline(h.pipeline),
        ];
        assert(r@ =~= pipeline_teardown_steps(h));
        r
    }

    /// Releases the pipeline from its context and hands back its teardown.
    pub fn destroy(&self, logical: &mut LogicalDevice) -> (r: Result<Vec<TeardownStep>, LifecycleError>)
        ensures
            r is Ok <==> release_allowed(old(logical)@, self.id),
            r matches Ok(steps) ==> steps@ == pipeline_teardown_steps(self.handles)
                && final(logical)@ == released(old(logical)@),
            r is Err ==> final(logical)@ == old(logical)@,
            !old(logical)@.open ==> r == Err::<Vec<TeardownStep>, LifecycleError>(LifecycleError::ContextDestroyed),
    {
        match logical.release(self.id) {
            Ok(()) => Ok(self.teardown_steps()),
            Err(e) => Err(e),
        }
    }
}

} // verus!
