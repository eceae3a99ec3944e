//! Device catalog and selector.

use vstd::prelude::*;

verus! {

/// Queue capability bit for compute work (`VK_QUEUE_COMPUTE_BIT`).
pub const QUEUE_COMPUTE: u32 = 0x2;

/// Queue capability bit for transfer work (`VK_QUEUE_TRANSFER_BIT`).
pub const QUEUE_TRANSFER: u32 = 0x4;

/// Device class codes (`VkPhysicalDeviceType`).
pub const DEVICE_TYPE_OTHER: i32 = 0;
pub const DEVICE_TYPE_INTEGRATED_GPU: i32 = 1;
pub const DEVICE_TYPE_DISCRETE_GPU: i32 = 2;
pub const DEVICE_TYPE_VIRTUAL_GPU: i32 = 3;
pub const DEVICE_TYPE_CPU: i32 = 4;

/// Why no device could be selected.
#[derive(Debug, Clone, Copy, PartialEq, Eq, Structural)]
pub enum DeviceSelectionError {
    /// No accelerator exposes a queue family with both compute and transfer capability.
    NoSuitableDevice,
}

/// What the catalog knows of one accelerator, discovered once.
#[derive(Debug, Clone)]
pub struct AcceleratorDescriptor {
    /// The device class code.
    pub device_type: i32,
    /// The capability bits of each queue family, in the driver's order.
    pub queue_families: Vec<u32>,
    /// The property bits of each memory type, in the driver's order.
    pub memory_types: Vec<u32>,
}

/// A family advertises both compute and transfer capability.
pub open spec fn is_compute_transfer(flags: u32) -> bool {
    flags & QUEUE_COMPUTE == QUEUE_COMPUTE && flags & QUEUE_TRANSFER == QUEUE_TRANSFER
}

/// `i` is the first compute+transfer family of `families`.
pub open spec fn is_first_compute_transfer(families: Seq<u32>, i: int) -> bool {
    &&& 0 <= i < families.len()
    &&& is_compute_transfer(families[i])
    &&& forall|j: int| 0 <= j < i ==> !is_compute_transfer(#[trigger] families[j])
}

pub open spec fn has_compute_transfer(families: Seq<u32>) -> bool {
    exists|i: int| 0 <= i < families.len() && is_compute_transfer(#[trigger] families[i])
}

/// The rank of a device class: discrete > integrated > virtual > other and CPU;
/// an unknown class has none.
pub open spec fn class_rank(device_type: i32) -> int {
    if device_type == DEVICE_TYPE_DISCRETE_GPU {
        3
    } else if device_type == DEVICE_TYPE_INTEGRATED_GPU {
        2
    } else if device_type == DEVICE_TYPE_VIRTUAL_GPU {
        1
    } else if device_type == DEVICE_TYPE_OTHER || device_type == DEVICE_TYPE_CPU {
        0
    } else {
        -1
    }
}

/// The score of a device: its class rank, or -1 when it is unusable.
pub open spec fn device_score(device_type: i32, families: Seq<u32>) -> int {
    if has_compute_transfer(families) {
        class_rank(device_type)
    } else {
        -1
    }
}

pub open spec fn score_of(d: AcceleratorDescriptor) -> int {
    device_score(d.device_type, d.queue_families@)
}

/// `i` is the first candidate of highest non-negative score.
pub open spec fn is_selected(devices: Seq<AcceleratorDescriptor>, i: int) -> bool {
    &&& 0 <= i < devices.len()
    &&& score_of(devices[i]) >= 0
    &&& forall|j: int| 0 <= j < devices.len() ==> score_of(#[trigger] devices[j]) <= score_of(devices[i])
    &&& forall|j: int| 0 <= j < i ==> score_of(#[trigger] devices[j]) < score_of(devices[i])
}

pub open spec fn any_usable(devices: Seq<AcceleratorDescriptor>) -> bool {
    exists|j: int| 0 <= j < devices.len() && score_of(#[trigger] devices[j]) >= 0
}

fn contains_compute_transfer(flags: u32) -> (r: bool)
    ensures
        r == is_compute_transfer(flags),
{
    flags & QUEUE_COMPUTE == QUEUE_COMPUTE && flags & QUEUE_TRANSFER == QUEUE_TRANSFER
}

/// The index of the first queue family that supports both compute and transfer.
pub fn find_queue_family(families: &Vec<u32>) -> (r: Option<usize>)
    ensures
        r matches Some(i) ==> is_first_compute_transfer(families@, i as int),
        r is None <==> !has_compute_transfer(families@),
{
    let mut i: usize = 0;
    while i < families.len()
        invariant
            i <= families.len(),
            forall|j: int| 0 <= j < i ==> !is_compute_transfer(#[trigger] families@[j]),
        decreases families.len() - i,
    {
        if contains_compute_transfer(families[i]) {
            return Some(i);
        }
        i += 1;
    }
    None
}

/// Scores a device by class; -1 marks a device lacking a compute+transfer
/// family or of unknown class.
pub fn score_device(device: &AcceleratorDescriptor) -> (r: i32)
    ensures
        r as int == score_of(*device),
{
    if find_queue_family(&device.queue_families).is_none() {
        return -1;
    }
    let t = device.device_type;
    if t == DEVICE_TYPE_DISCRETE_GPU {
        3
    } else if t == DEVICE_TYPE_INTEGRATED_GPU {
        2
    } else if t == DEVICE_TYPE_VIRTUAL_GPU {
        1
    } else if t == DEVICE_TYPE_OTHER || t == DEVICE_TYPE_CPU {
        0
    } else {
        -1
    }
}

/// The accelerator chosen from the catalog, with the queue family it will
/// run on and its memory types. Only selection makes one.
#[derive(Debug, Clone, PartialEq, Eq)]
pub struct PhysicalDevice {
    index: usize,
    queue_family: usize,
    memory_types: Vec<u32>,
}

fn copy_types(v: &Vec<u32>) -> (r: Vec<u32>)
    ensures
        r@ == v@,
{
    let mut r: Vec<u32> = Vec::new();
    let mut i: usize = 0;
    while i < v.len()
        invariant
            i <= v@.len(),
            r@ =~= v@.subrange(0, i as int),
        decreases v@.len() - i,
    {
        r.push(v[i]);
        i += 1;
    }
    assert(r@ =~= v@);
    r
}

impl PhysicalDevice {
    pub closed spec fn spec_index(&self) -> usize {
        self.index
    }

    pub closed spec fn spec_queue_family(&self) -> usize {
        self.queue_family
    }

    pub closed spec fn spec_memory_types(&self) -> Seq<u32> {
        self.memory_types@
    }

    /// Position of the device in the catalog.
    #[verifier::when_used_as_spec(spec_index)]
    pub fn index(&self) -> (r: usize)
        ensures
            r == self.spec_index(),
    {
        self.index
    }

    /// The first queue family of the device with compute and transfer capability.
    #[verifier::when_used_as_spec(spec_queue_family)]
    pub fn queue_family(&self) -> (r: usize)
        ensures
            r == self.spec_queue_family(),
    {
        self.queue_family
    }

    /// The device's memory types, taken out of the selection.
    pub fn into_memory_types(self) -> (r: Vec<u32>)
        ensures
            r@ == self.spec_memory_types(),
    {
        self.memory_types
    }

    /// The property bits of the device's memory types.
    pub fn memory_types(&self) -> (r: &Vec<u32>)
        ensures
            r@ == self.spec_memory_types(),
    {
        &self.memory_types
    }

    /// Picks the highest-scoring usable device; ties go to the first found.
    pub fn find_device(devices: &Vec<AcceleratorDescriptor>) -> (r: Result<PhysicalDevice, DeviceSelectionError>)
        ensures
            r is Err <==> !any_usable(devices@),
            r matches Ok(p) ==> is_selected(devices@, p.index() as int)
                && is_first_compute_transfer(devices@[p.index() as int].queue_families@, p.queue_family() as int)
                && p.spec_memory_types() == devices@[p.index() as int].memory_types@,
            r matches Err(e) ==> e == DeviceSelectionError::NoSuitableDevice,
    {
        let mut best: Option<usize> = None;
        let mut best_score: i32 = -1;
        let mut i: usize = 0;
        while i < devices.len()
            invariant
                i <= devices.len(),
                best is None ==> best_score == -1 && forall|j: int| 0 <= j < i ==> score_of(#[trigger] devices@[j]) < 0,
                best matches Some(b) ==> b < i && best_score as int == score_of(devices@[b as int])
                    && best_score >= 0
                    && (forall|j: int| 0 <= j < i ==> score_of(#[trigger] devices@[j]) <= best_score)
                    && (forall|j: int| 0 <= j < b ==> score_of(#[trigger] devices@[j]) < best_score),
            decreases devices.len() - i,
        {
            let s = score_device(&devices[i]);
            if s > best_score {
                best = Some(i);
                best_score = s;
            }
            i += 1;
        }
        match best {
            None => Err(DeviceSelectionError::NoSuitableDevice),
            Some(b) => {
                let family = find_queue_family(&devices[b].queue_families);
                match family {
                    Some(f) => Ok(PhysicalDevice {
                        index: b,
                        queue_family: f,
                        memory_types: copy_types(&devices[b].memory_types),
                    }),
                    None => Err(DeviceSelectionError::NoSuitableDevice),
                }
            }
        }
    }
}

/// When no accelerator of the catalog has a queue family with both compute
/// and transfer capability, no device is usable and selection fails; no
/// context, and so no resource, can then be made, since a context is opened
/// only on a selected device.
pub proof fn lemma_selection_needs_compute_transfer(devices: Seq<AcceleratorDescriptor>)
    requires
        forall|j: int| 0 <= j < devices.len() ==> !has_compute_transfer(#[trigger] devices[j].queue_families@),
    ensures
        !any_usable(devices),
{
    assert forall|j: int| 0 <= j < devices.len() implies score_of(#[trigger] devices[j]) < 0 by {
        assert(!has_compute_transfer(devices[j].queue_families@));
    }
}

} // verus!
