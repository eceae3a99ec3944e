//! Staged resources: a host-visible staging buffer paired with a device-local
//! working buffer of the same size, and the choice of memory types for them.

use vstd::prelude::*;
use crate::context::{LifecycleError, LogicalDevice, TeardownStep, registered, release_allowed, released};

verus! {

/// Memory property bit: device-local memory (`VK_MEMORY_PROPERTY_DEVICE_LOCAL_BIT`).
pub const MEMORY_DEVICE_LOCAL: u32 = 0x1;
/// Memory property bit: host-visible memory (`VK_MEMORY_PROPERTY_HOST_VISIBLE_BIT`).
pub const MEMORY_HOST_VISIBLE: u32 = 0x2;
/// Memory property bit: host-coherent memory (`VK_MEMORY_PROPERTY_HOST_COHERENT_BIT`).
pub const MEMORY_HOST_COHERENT: u32 = 0x4;
/// The exact properties of staging memory.
pub const STAGING_PROPERTIES: u32 = 0x6;
/// The exact properties of working memory.
pub const WORKING_PROPERTIES: u32 = 0x1;

/// Buffer usage bits (`VkBufferUsageFlagBits`).
pub const USAGE_TRANSFER_SRC: u32 = 0x1;
pub const USAGE_TRANSFER_DST: u32 = 0x2;
pub const USAGE_UNIFORM_BUFFER: u32 = 0x10;
pub const USAGE_STORAGE_BUFFER: u32 = 0x20;

/// The largest number of memory types a device reports (`VK_MAX_MEMORY_TYPES`).
pub const MAX_MEMORY_TYPES: usize = 32;

#[derive(Debug, Clone, Copy, PartialEq, Eq, Structural)]
pub enum ResourceError {
    /// No memory type is allowed by the requirement and has exactly the requested properties.
    NoSuitableMemoryType,
    /// The element size is zero, or the byte size does not fit the address space.
    InvalidSize,
    /// A view access reaches past the end of the resource, or mapped
    /// contents do not have the resource's size.
    OutOfBounds,
    /// The resource's memory is already bound.
    AlreadyBound,
    /// The context refused to register or release the resource.
    Lifecycle(LifecycleError),
}

/// Memory type `i` is allowed by the requirement bitmask `filter`.
pub open spec fn type_allowed(filter: u32, i: int) -> bool {
    0 <= i < 32 && (filter >> (i as u32)) & 1u32 == 1u32
}

/// Memory type `i` is allowed and has exactly the properties `props`.
pub open spec fn type_matches(types: Seq<u32>, filter: u32, props: u32, i: int) -> bool {
    0 <= i < types.len() && type_allowed(filter, i) && types[i] == props
}

/// Scans the memory types for the first one allowed by `type_filter` whose
/// properties equal `props` exactly (first match, not best match).
pub fn find_vram(memory_types: &Vec<u32>, type_filter: u32, props: u32) -> (r: Result<u32, ResourceError>)
    ensures
        r matches Ok(i) ==> type_matches(memory_types@, type_filter, props, i as int)
            && forall|j: int| 0 <= j < i ==> !type_matches(memory_types@, type_filter, props, j),
        r is Err <==> forall|j: int| !type_matches(memory_types@, type_filter, props, j),
        r matches Err(e) ==> e == ResourceError::NoSuitableMemoryType,
{
    let mut i: usize = 0;
    while i < memory_types.len() && i < MAX_MEMORY_TYPES
        invariant
            i <= memory_types.len(),
            i <= MAX_MEMORY_TYPES,
            forall|j: int| 0 <= j < i ==> !type_matches(memory_types@, type_filter, props, j),
        decreases memory_types.len() - i,
    {
        if (type_filter >> (i as u32)) & 1 == 1 && memory_types[i] == props {
            assert(type_matches(memory_types@, type_filter, props, i as int));
            return Ok(i as u32);
        }
        i += 1;
    }
    Err(ResourceError::NoSuitableMemoryType)
}

/// What an allocation of device memory asks for.
#[derive(Debug, Clone, Copy, PartialEq, Eq, Structural)]
pub struct MemoryAllocation {
    pub size: u64,
    pub type_index: u32,
}

/// Plans an allocation of `size` bytes in the first memory type of the
/// context's device that the requirement allows and that has exactly `props`.
pub fn alloc_vram(logical: &LogicalDevice, size: u64, type_filter: u32, props: u32) -> (r: Result<MemoryAllocation, ResourceError>)
    ensures
        r matches Ok(a) ==> a.size == size
            && type_matches(logical@.memory_types, type_filter, props, a.type_index as int)
            && forall|j: int| 0 <= j < a.type_index ==> !type_matches(logical@.memory_types, type_filter, props, j),
        r is Err <==> forall|j: int| !type_matches(logical@.memory_types, type_filter, props, j),
        r matches Err(e) ==> e == ResourceError::NoSuitableMemoryType,
{
    match find_vram(logical.memory_types(), type_filter, props) {
        Ok(type_index) => Ok(MemoryAllocation { size, type_index }),
        Err(e) => Err(e),
    }
}

/// The shape of a paired resource, fixed before any driver object exists.
#[derive(Debug, Clone, Copy, PartialEq, Eq, Structural)]
pub struct BufferLayout {
    pub element_size: usize,
    pub element_count: usize,
    /// Byte size of each of the two buffers.
    pub size: usize,
    pub stage_usage: u32,
    pub working_usage: u32,
}

/// The layout of a resource of `count` elements of `element_size` bytes, or
/// none when the element size is zero or the byte size overflows.
pub open spec fn layout_of(element_size: usize, count: usize, stage_usage: u32, working_usage: u32) -> Option<BufferLayout> {
    if element_size == 0 || element_size * count > usize::MAX {
        None
    } else {
        Some(BufferLayout {
            element_size,
            element_count: count,
            size: (element_size * count) as usize,
            stage_usage,
            working_usage,
        })
    }
}

fn make_layout(element_size: usize, count: usize, stage_usage: u32, working_usage: u32) -> (r: Result<BufferLayout, ResourceError>)
    ensures
        r matches Ok(l) ==> layout_of(element_size, count, stage_usage, working_usage) == Some(l),
        r is Err <==> layout_of(element_size, count, stage_usage, working_usage) is None,
        r matches Err(e) ==> e == ResourceError::InvalidSize,
{
    if element_size == 0 {
        return Err(ResourceError::InvalidSize);
    }
    match element_size.checked_mul(count) {
        Some(size) => Ok(BufferLayout { element_size, element_count: count, size, stage_usage, working_usage }),
        None => Err(ResourceError::InvalidSize),
    }
}

/// The two buffers of a paired resource, as raw driver handles.
#[derive(Debug, Clone, Copy, PartialEq, Eq, Structural)]
pub struct BufferPair {
    pub stage: u64,
    pub working: u64,
}

/// The two memory allocations bound to a paired resource, as raw driver handles.
#[derive(Debug, Clone, Copy, PartialEq, Eq, Structural)]
pub struct MemoryPair {
    pub stage: u64,
    pub working: u64,
}

/// What the driver reports a buffer needs: a byte size and the bitmask of
/// the memory types allowed to back it.
#[derive(Debug, Clone, Copy, PartialEq, Eq, Structural)]
pub struct MemoryRequirement {
    pub size: u64,
    pub type_bits: u32,
}

/// Some memory type of `types` is allowed by `req` and has exactly `props`.
pub open spec fn type_exists(types: Seq<u32>, req: MemoryRequirement, props: u32) -> bool {
    exists|i: int| type_matches(types, req.type_bits, props, i)
}

/// `a` is the allocation planned for `req`: its size, and the first memory
/// type allowed by `req` with exactly `props`.
pub open spec fn planned(types: Seq<u32>, req: MemoryRequirement, props: u32, a: MemoryAllocation) -> bool {
    &&& a.size == req.size
    &&& type_matches(types, req.type_bits, props, a.type_index as int)
    &&& forall|j: int| 0 <= j < a.type_index ==> !type_matches(types, req.type_bits, props, j)
}

/// Staging bytes with `data` written at `offset`.
pub open spec fn written(bytes: Seq<u8>, offset: int, data: Seq<u8>) -> Seq<u8> {
    bytes.subrange(0, offset) + data + bytes.subrange(offset + data.len(), bytes.len() as int)
}

/// The `len` staging bytes at `offset`.
pub open spec fn read_back(bytes: Seq<u8>, offset: int, len: int) -> Seq<u8> {
    bytes.subrange(offset, offset + len)
}

/// The teardown of a paired resource: unmap the staging memory, free both
/// allocations, destroy both buffers. Before its memory is bound, only the
/// buffers are destroyed.
pub open spec fn buffer_teardown_steps(b: BufferPair, memory: Option<MemoryPair>) -> Seq<TeardownStep> {
    match memory {
        Some(m) => seq![
            TeardownStep::UnmapMemory(m.stage),
            TeardownStep::FreeMemory(m.working),
            TeardownStep::FreeMemory(m.stage),
            TeardownStep::DestroyBuffer(b.working),
            TeardownStep::DestroyBuffer(b.stage),
        ],
        None => seq![TeardownStep::DestroyBuffer(b.working), TeardownStep::DestroyBuffer(b.stage)],
    }
}

/// The mathematical state of a paired resource.
pub struct StagedView {
    pub id: u64,
    pub buffers: BufferPair,
    pub layout: BufferLayout,
    /// The property bits of the device's memory types.
    pub memory_types: Seq<u32>,
    pub stage_requirement: MemoryRequirement,
    pub working_requirement: MemoryRequirement,
    pub stage_allocation: MemoryAllocation,
    pub working_allocation: MemoryAllocation,
    /// The bound allocations, once bound.
    pub memory: Option<MemoryPair>,
    /// The host image of the staging memory.
    pub bytes: Seq<u8>,
}

impl StagedView {
    /// What every paired resource keeps true: the sizes agree, the two buffers
    /// (and the two bound allocations) are distinct, the staging allocation is
    /// in a host-visible and host-coherent type and the working allocation in a
    /// device-local one, each the first such type its requirement allows.
    pub open spec fn wf(self) -> bool {
        &&& self.layout.element_size > 0
        &&& self.layout.size == self.layout.element_size * self.layout.element_count
        &&& self.bytes.len() == self.layout.size
        &&& self.buffers.stage != self.buffers.working
        &&& self.memory matches Some(m) ==> m.stage != m.working
        &&& planned(self.memory_types, self.stage_requirement, STAGING_PROPERTIES, self.stage_allocation)
        &&& planned(self.memory_types, self.working_requirement, WORKING_PROPERTIES, self.working_allocation)
    }
}

/// A paired resource: its layout, its buffers, the memory planned and bound
/// for them, its registration with the context, and the host image of its
/// staging memory, which the staging mapping mirrors for the resource's
/// whole lifetime.
pub struct StagedBuffer {
    id: u64,
    buffers: BufferPair,
    layout: BufferLayout,
    memory_types: Ghost<Seq<u32>>,
    stage_requirement: MemoryRequirement,
    working_requirement: MemoryRequirement,
    stage_allocation: MemoryAllocation,
    working_allocation: MemoryAllocation,
    memory: Option<MemoryPair>,
    bytes: Vec<u8>,
}

impl View for StagedBuffer {
    type V = StagedView;

    closed spec fn view(&self) -> StagedView {
        StagedView {
            id: self.id,
            buffers: self.buffers,
            layout: self.layout,
            memory_types: self.memory_types@,
            stage_requirement: self.stage_requirement,
            working_requirement: self.working_requirement,
            stage_allocation: self.stage_allocation,
            working_allocation: self.working_allocation,
            memory: self.memory,
            bytes: self.bytes@,
        }
    }
}

impl StagedBuffer {
    #[verifier::type_invariant]
    spec fn inv(&self) -> bool {
        self@.wf()
    }

    /// Plans the memory of both buffers in the context's memory types and
    /// registers the new resource; its staging image holds `data`. Fails with
    /// `NoSuitableMemoryType` exactly when either buffer has no memory type
    /// with exactly its properties, before anything is registered.
    pub fn new(
        logical: &mut LogicalDevice,
        layout: BufferLayout,
        buffers: BufferPair,
        stage_requirement: MemoryRequirement,
        working_requirement: MemoryRequirement,
        data: Vec<u8>,
    ) -> (r: Result<StagedBuffer, ResourceError>)
        requires
            layout.element_size > 0,
            layout.size == layout.element_size * layout.element_count,
            data@.len() == layout.size,
            buffers.stage != buffers.working,
        ensures
            !type_exists(old(logical)@.memory_types, stage_requirement, STAGING_PROPERTIES)
                || !type_exists(old(logical)@.memory_types, working_requirement, WORKING_PROPERTIES)
                ==> r == Err::<StagedBuffer, ResourceError>(ResourceError::NoSuitableMemoryType),
            type_exists(old(logical)@.memory_types, stage_requirement, STAGING_PROPERTIES)
                && type_exists(old(logical)@.memory_types, working_requirement, WORKING_PROPERTIES) ==> {
                &&& r is Ok <==> old(logical)@.open && old(logical)@.next_id < u64::MAX
                &&& !old(logical)@.open ==> r == Err::<StagedBuffer, ResourceError>(
                    ResourceError::Lifecycle(LifecycleError::ContextDestroyed))
            },
            r matches Ok(b) ==> b@.wf() && b@.id == old(logical)@.next_id && b@.buffers == buffers
                && b@.layout == layout && b@.memory_types == old(logical)@.memory_types
                && b@.stage_requirement == stage_requirement && b@.working_requirement == working_requirement
                && b@.memory is None && b@.bytes == data@,
            r is Ok ==> final(logical)@ == registered(old(logical)@),
            r is Err ==> final(logical)@ == old(logical)@,
    {
        let stage_allocation = match alloc_vram(logical, stage_requirement.size, stage_requirement.type_bits, STAGING_PROPERTIES) {
            Ok(a) => a,
            Err(e) => return Err(e),
        };
        let working_allocation = match alloc_vram(logical, working_requirement.size, working_requirement.type_bits, WORKING_PROPERTIES) {
            Ok(a) => a,
            Err(e) => return Err(e),
        };
        let memory_types = Ghost(logical@.memory_types);
        match logical.register() {
            Ok(id) => Ok(StagedBuffer {
                id,
                buffers,
                layout,
                memory_types,
                stage_requirement,
                working_requirement,
                stage_allocation,
                working_allocation,
                memory: None,
                bytes: data,
            }),
            Err(e) => Err(ResourceError::Lifecycle(e)),
        }
    }

    /// Records the allocations made for the plan and bound to the buffers.
    pub fn bind_memory(&mut self, memory: MemoryPair) -> (r: Result<(), ResourceError>)
        requires
            memory.stage != memory.working,
        ensures
            r is Ok <==> old(self)@.memory is None,
            r is Ok ==> final(self)@ == (StagedView { memory: Some(memory), ..old(self)@ }),
            r is Err ==> final(self)@ == old(self)@ && r == Err::<(), ResourceError>(ResourceError::AlreadyBound),
    {
        proof { use_type_invariant(&*self); }
        if self.memory.is_some() {
            return Err(ResourceError::AlreadyBound);
        }
        self.memory = Some(memory);
        Ok(())
    }

    pub fn layout(&self) -> (r: BufferLayout)
        ensures
            r == self@.layout,
            r.size == r.element_size * r.element_count,
            r.element_size > 0,
    {
        proof { use_type_invariant(self); }
        self.layout
    }

    pub fn buffers(&self) -> (r: BufferPair)
        ensures
            r == self@.buffers,
            r.stage != r.working,
    {
        proof { use_type_invariant(self); }
        self.buffers
    }

    pub fn memory(&self) -> (r: Option<MemoryPair>)
        ensures
            r == self@.memory,
    {
        self.memory
    }

    /// The allocation to make for the staging buffer: host-visible and host-coherent.
    pub fn stage_allocation(&self) -> (r: MemoryAllocation)
        ensures
            r == self@.stage_allocation,
            planned(self@.memory_types, self@.stage_requirement, STAGING_PROPERTIES, r),
    {
        proof { use_type_invariant(self); }
        self.stage_allocation
    }

    /// The allocation to make for the working buffer: device-local.
    pub fn working_allocation(&self) -> (r: MemoryAllocation)
        ensures
            r == self@.working_allocation,
            planned(self@.memory_types, self@.working_requirement, WORKING_PROPERTIES, r),
    {
        proof { use_type_invariant(self); }
        self.working_allocation
    }

    /// Size in bytes.
    pub fn get_size(&self) -> (r: usize)
        ensures
            r == self@.layout.size,
            r == self@.bytes.len(),
    {
        proof { use_type_invariant(self); }
        self.layout.size
    }

    /// The number of elements the view holds: size / element size.
    pub fn len(&self) -> (r: usize)
        ensures
            r == self@.layout.element_count,
            self@.layout.element_size * r == self@.bytes.len(),
    {
        proof { use_type_invariant(self); }
        self.layout.element_count
    }

    /// A read view over the staging image.
    pub fn get_slice(&self) -> (r: &[u8])
        ensures
            r@ == self@.bytes,
            r@.len() == self@.layout.size,
    {
        proof { use_type_invariant(self); }
        self.bytes.as_slice()
    }

    /// Writes `data` into the staging image at byte `offset`, bounds-checked.
    pub fn write(&mut self, offset: usize, data: &[u8]) -> (r: Result<(), ResourceError>)
        ensures
            r is Ok <==> offset + data@.len() <= old(self)@.bytes.len(),
            r is Ok ==> final(self)@ == (StagedView { bytes: written(old(self)@.bytes, offset as int, data@), ..old(self)@ }),
            r is Err ==> final(self)@ == old(self)@ && r == Err::<(), ResourceError>(ResourceError::OutOfBounds),
    {
        proof { use_type_invariant(&*self); }
        let n = self.bytes.len();
        if offset > n || data.len() > n - offset {
            return Err(ResourceError::OutOfBounds);
        }
        let mut next: Vec<u8> = Vec::new();
        let mut k: usize = 0;
        while k < n
            invariant
                offset + data@.len() <= n,
                n == self.bytes@.len(),
                k <= n,
                next@.len() == k,
                forall|j: int| 0 <= j < k ==> next@[j] == written(self.bytes@, offset as int, data@)[j],
            decreases n - k,
        {
            if k >= offset && k - offset < data.len() {
                next.push(data[k - offset]);
            } else {
                next.push(self.bytes[k]);
            }
            k += 1;
        }
        assert(next@ =~= written(self.bytes@, offset as int, data@));
        self.bytes = next;
        Ok(())
    }

    /// Copies `len` staging bytes at `offset`, bounds-checked.
    pub fn read(&self, offset: usize, len: usize) -> (r: Option<Vec<u8>>)
        ensures
            r is Some <==> offset + len <= self@.bytes.len(),
            r matches Some(v) ==> v@ == read_back(self@.bytes, offset as int, len as int),
    {
        let n = self.bytes.len();
        if offset > n || len > n - offset {
            return None;
        }
        let mut out: Vec<u8> = Vec::new();
        let mut i: usize = 0;
        while i < len
            invariant
                offset + len <= n,
                n == self.bytes@.len(),
                i <= len,
                out@ =~= self.bytes@.subrange(offset as int, offset + i),
            decreases len - i,
        {
            out.push(self.bytes[offset + i]);
            i += 1;
        }
        Some(out)
    }

    /// Replaces the staging image by what the mapping holds after a download.
    pub fn refresh(&mut self, mapped: &[u8]) -> (r: Result<(), ResourceError>)
        ensures
            r is Ok <==> mapped@.len() == old(self)@.bytes.len(),
            r is Ok ==> final(self)@ == (StagedView { bytes: mapped@, ..old(self)@ }),
            r is Err ==> final(self)@ == old(self)@ && r == Err::<(), ResourceError>(ResourceError::OutOfBounds),
    {
        proof { use_type_invariant(&*self); }
        if mapped.len() != self.bytes.len() {
            return Err(ResourceError::OutOfBounds);
        }
        let mut next: Vec<u8> = Vec::new();
        let mut k: usize = 0;
        while k < mapped.len()
            invariant
                k <= mapped@.len(),
                next@ =~= mapped@.subrange(0, k as int),
            decreases mapped@.len() - k,
        {
            next.push(mapped[k]);
            k += 1;
        }
        assert(next@ =~= mapped@);
        self.bytes = next;
        Ok(())
    }

    /// The driver calls that destroy this resource, in order.
    pub fn teardown_steps(&self) -> (r: Vec<TeardownStep>)
        ensures
            r@ == buffer_teardown_steps(self@.buffers, self@.memory),
    {
        let b = self.buffers;
        let r = match self.memory {
            Some(m) => vec![
                TeardownStep::UnmapMemory(m.stage),
                TeardownStep::FreeMemory(m.working),
                TeardownStep::FreeMemory(m.stage),
                TeardownStep::DestroyBuffer(b.working),
                TeardownStep::DestroyBuffer(b.stage),
            ],
            None => vec![TeardownStep::DestroyBuffer(b.working), TeardownStep::DestroyBuffer(b.stage)],
        };
        assert(r@ =~= buffer_teardown_steps(b, self.memory));
        r
    }

    /// Releases the resource from its context and hands back its teardown.
    pub fn destroy(&self, logical: &mut LogicalDevice) -> (r: Result<Vec<TeardownStep>, LifecycleError>)
        ensures
            r is Ok <==> release_allowed(old(logical)@, self@.id),
            r matches Ok(steps) ==> steps@ == buffer_teardown_steps(self@.buffers, self@.memory)
                && final(logical)@ == released(old(logical)@),
            r is Err ==> final(logical)@ == old(logical)@,
            !old(logical)@.open ==> r == Err::<Vec<TeardownStep>, LifecycleError>(LifecycleError::ContextDestroyed),
    {
        match logical.release(self.id) {
            Ok(()) => Ok(self.teardown_steps()),
            Err(e) => Err(e),
        }
    }
}

/// A parameter resource: written by the host, read by the kernel through a
/// uniform binding. Its elements are bytes.
pub struct StagedUBO {
    pub buffer: StagedBuffer,
}

/// The layout of a parameter resource of `len` bytes.
pub open spec fn ubo_layout(len: usize) -> BufferLayout {
    BufferLayout {
        element_size: 1,
        element_count: len,
        size: len,
        stage_usage: USAGE_TRANSFER_SRC,
        working_usage: USAGE_UNIFORM_BUFFER | USAGE_TRANSFER_DST,
    }
}

impl StagedUBO {
    /// Staging is a transfer source; working is a uniform buffer and transfer target.
    pub fn layout(len: usize) -> (r: BufferLayout)
        ensures
            r == ubo_layout(len),
    {
        BufferLayout {
            element_size: 1,
            element_count: len,
            size: len,
            stage_usage: USAGE_TRANSFER_SRC,
            working_usage: USAGE_UNIFORM_BUFFER | USAGE_TRANSFER_DST,
        }
    }

    /// A parameter resource over `buffers` whose staging image starts as
    /// `data`, with its memory planned from the two buffers' requirements.
    pub fn new(
        logical: &mut LogicalDevice,
        data: Vec<u8>,
        buffers: BufferPair,
        stage_requirement: MemoryRequirement,
        working_requirement: MemoryRequirement,
    ) -> (r: Result<StagedUBO, ResourceError>)
        requires
            buffers.stage != buffers.working,
        ensures
            !type_exists(old(logical)@.memory_types, stage_requirement, STAGING_PROPERTIES)
                || !type_exists(old(logical)@.memory_types, working_requirement, WORKING_PROPERTIES)
                ==> r == Err::<StagedUBO, ResourceError>(ResourceError::NoSuitableMemoryType),
            type_exists(old(logical)@.memory_types, stage_requirement, STAGING_PROPERTIES)
                && type_exists(old(logical)@.memory_types, working_requirement, WORKING_PROPERTIES) ==> {
                &&& r is Ok <==> old(logical)@.open && old(logical)@.next_id < u64::MAX
                &&& !old(logical)@.open ==> r == Err::<StagedUBO, ResourceError>(
                    ResourceError::Lifecycle(LifecycleError::ContextDestroyed))
            },
            r matches Ok(u) ==> u.buffer@.wf() && u.buffer@.id == old(logical)@.next_id && u.buffer@.buffers == buffers
                && u.buffer@.layout == ubo_layout(data@.len() as usize)
                && u.buffer@.memory_types == old(logical)@.memory_types
                && u.buffer@.stage_requirement == stage_requirement
                && u.buffer@.working_requirement == working_requirement
                && u.buffer@.memory is None && u.buffer@.bytes == data@,
            r is Ok ==> final(logical)@ == registered(old(logical)@),
            r is Err ==> final(logical)@ == old(logical)@,
    {
        let layout = StagedUBO::layout(data.len());
        match StagedBuffer::new(logical, layout, buffers, stage_requirement, working_requirement, data) {
            Ok(buffer) => Ok(StagedUBO { buffer }),
            Err(e) => Err(e),
        }
    }

    pub fn get_slice(&self) -> (r: &[u8])
        ensures
            r@ == self.buffer@.bytes,
    {
        self.buffer.get_slice()
    }

    /// The device-local buffer the kernel reads.
    pub fn get_ubo(&self) -> (r: u64)
        ensures
            r == self.buffer@.buffers.working,
    {
        self.buffer.buffers().working
    }

    pub fn get_stage(&self) -> (r: u64)
        ensures
            r == self.buffer@.buffers.stage,
    {
        self.buffer.buffers().stage
    }

    /// Size in bytes.
    pub fn get_size(&self) -> (r: usize)
        ensures
            r == self.buffer@.layout.size,
    {
        self.buffer.get_size()
    }
}

/// A result resource: written by the kernel through a storage binding, read
/// back by the host.
pub struct StagedSSBO {
    pub buffer: StagedBuffer,
}

/// The layout of a result resource of `len` elements of `element_size` bytes.
pub open spec fn ssbo_layout(element_size: usize, len: usize) -> Option<BufferLayout> {
    layout_of(element_size, len, USAGE_TRANSFER_DST, USAGE_STORAGE_BUFFER | USAGE_TRANSFER_SRC)
}

impl StagedSSBO {
    /// Staging is a transfer target; working is a storage buffer and transfer source.
    pub fn layout(element_size: usize, len: usize) -> (r: Result<BufferLayout, ResourceError>)
        ensures
            r matches Ok(l) ==> ssbo_layout(element_size, len) == Some(l),
            r is Err <==> ssbo_layout(element_size, len) is None,
            r matches Err(e) ==> e == ResourceError::InvalidSize,
    {
        make_layout(element_size, len, USAGE_TRANSFER_DST, USAGE_STORAGE_BUFFER | USAGE_TRANSFER_SRC)
    }

    /// A result resource of `len` elements of `element_size` bytes over
    /// `buffers`, with its memory planned from the two buffers' requirements;
    /// its staging image starts zeroed.
    pub fn new(
        logical: &mut LogicalDevice,
        element_size: usize,
        len: usize,
        buffers: BufferPair,
        stage_requirement: MemoryRequirement,
        working_requirement: MemoryRequirement,
    ) -> (r: Result<StagedSSBO, ResourceError>)
        requires
            buffers.stage != buffers.working,
        ensures
            ssbo_layout(element_size, len) is None ==> r == Err::<StagedSSBO, ResourceError>(ResourceError::InvalidSize),
            ssbo_layout(element_size, len) is Some && (
                !type_exists(old(logical)@.memory_types, stage_requirement, STAGING_PROPERTIES)
                || !type_exists(old(logical)@.memory_types, working_requirement, WORKING_PROPERTIES))
                ==> r == Err::<StagedSSBO, ResourceError>(ResourceError::NoSuitableMemoryType),
            ssbo_layout(element_size, len) is Some
                && type_exists(old(logical)@.memory_types, stage_requirement, STAGING_PROPERTIES)
                && type_exists(old(logical)@.memory_types, working_requirement, WORKING_PROPERTIES) ==> {
                &&& r is Ok <==> old(logical)@.open && old(logical)@.next_id < u64::MAX
                &&& !old(logical)@.open ==> r == Err::<StagedSSBO, ResourceError>(
                    ResourceError::Lifecycle(LifecycleError::ContextDestroyed))
            },
            r matches Ok(s) ==> s.buffer@.wf() && ssbo_layout(element_size, len) == Some(s.buffer@.layout)
                && s.buffer@.id == old(logical)@.next_id
                && s.buffer@.buffers == buffers
                && s.buffer@.memory_types == old(logical)@.memory_types
                && s.buffer@.stage_requirement == stage_requirement
                && s.buffer@.working_requirement == working_requirement
                && s.buffer@.memory is None
                && s.buffer@.bytes == Seq::new(s.buffer@.layout.size as nat, |i: int| 0u8),
            r is Ok ==> final(logical)@ == registered(old(logical)@),
            r is Err ==> final(logical)@ == old(logical)@,
    {
        let layout = match StagedSSBO::layout(element_size, len) {
            Ok(l) => l,
            Err(e) => return Err(e),
        };
        let mut zeros: Vec<u8> = Vec::new();
        let mut i: usize = 0;
        while i < layout.size
            invariant
                i <= layout.size,
                zeros@ =~= Seq::new(i as nat, |k: int| 0u8),
            decreases layout.size - i,
        {
            zeros.push(0u8);
            i += 1;
        }
        match StagedBuffer::new(logical, layout, buffers, stage_requirement, working_requirement, zeros) {
            Ok(buffer) => Ok(StagedSSBO { buffer }),
            Err(e) => Err(e),
        }
    }

    pub fn get_slice(&self) -> (r: &[u8])
        ensures
            r@ == self.buffer@.bytes,
    {
        self.buffer.get_slice()
    }

    /// The device-local buffer the kernel writes.
    pub fn get_ssbo(&self) -> (r: u64)
        ensures
            r == self.buffer@.buffers.working,
    {
        self.buffer.buffers().working
    }

    pub fn get_stage(&self) -> (r: u64)
        ensures
            r == self.buffer@.buffers.stage,
    {
        self.buffer.buffers().stage
    }

    /// Size in bytes.
    pub fn get_size(&self) -> (r: usize)
        ensures
            r == self.buffer@.layout.size,
    {
        self.buffer.get_size()
    }
}

/// A valid layout's byte size is the element size times the element count,
/// and a write into the staging image read straight back gives what was written.
pub proof fn lemma_staging_write_read(element_size: usize, count: usize, bytes: Seq<u8>, offset: int, data: Seq<u8>)
    requires
        element_size > 0,
        element_size * count <= usize::MAX,
        0 <= offset,
        offset + data.len() <= bytes.len(),
    ensures
        ssbo_layout(element_size, count) matches Some(l) && l.size == element_size * count,
        read_back(written(bytes, offset, data), offset, data.len() as int) == data,
        written(bytes, offset, data).len() == bytes.len(),
{
    assert(read_back(written(bytes, offset, data), offset, data.len() as int) =~= data);
}

} // verus!
