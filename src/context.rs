//! The execution context: one device session on the selected queue family,
//! the fence-gated phase machine of its single command buffer, and the ledger
//! of the resources that depend on it.

use vstd::prelude::*;
use crate::catalog::PhysicalDevice;

verus! {

/// The state of the context's single command buffer and its completion fence.
#[derive(Debug, Clone, Copy, PartialEq, Eq, Structural)]
pub enum Phase {
    /// Nothing recorded; the fence is unsignaled.
    Idle,
    /// Commands are being recorded.
    Recording,
    /// The batch is on the queue; the fence has not been waited on.
    Submitted,
    /// The fence has signaled; it and the command buffer still need a reset.
    Complete,
}

/// A step of the phase machine taken out of order, or on a destroyed context.
#[derive(Debug, Clone, Copy, PartialEq, Eq, Structural)]
pub enum EngineError {
    ContextDestroyed,
    OutOfOrder,
}

/// Why a lifecycle operation on the context or one of its dependents was refused.
#[derive(Debug, Clone, Copy, PartialEq, Eq, Structural)]
pub enum LifecycleError {
    /// The context was already torn down.
    ContextDestroyed,
    /// Device work is recorded or in flight; wait and reset first.
    WorkInFlight,
    /// Dependents are released in the reverse order of their creation.
    OutOfOrder,
    /// The context still has live dependents.
    DependentsAlive,
    /// No identifier is left for a new dependent.
    IdsExhausted,
}

/// One driver call of a teardown, in the order it must be made.
#[derive(Debug, Clone, Copy, PartialEq, Eq, Structural)]
pub enum TeardownStep {
    WaitIdle,
    UnmapMemory(u64),
    FreeMemory(u64),
    DestroyBuffer(u64),
    FreeDescriptorSet { pool: u64, set: u64 },
    DestroyDescriptorPool(u64),
    DestroyPipelineLayout(u64),
    DestroyDescriptorSetLayout(u64),
    DestroyPipeline(u64),
    DestroyCommandPool,
    DestroyDevice,
}

/// The queue the context requests: one queue of the selected family.
#[derive(Debug, Clone, Copy, PartialEq, Eq, Structural)]
pub struct ComputeTransferQueue {
    pub family: usize,
    pub index: u32,
}

/// The command buffer the context allocates: one primary buffer from the
/// pool of its queue family.
#[derive(Debug, Clone, Copy, PartialEq, Eq, Structural)]
pub struct CommandBufferRequest {
    pub family: usize,
    pub count: u32,
    pub primary: bool,
}

/// The mathematical state of a context.
pub struct ContextView {
    pub queue_family: usize,
    pub memory_types: Seq<u32>,
    pub open: bool,
    pub phase: Phase,
    pub dependents: Seq<u64>,
    pub next_id: u64,
}

pub struct LogicalDevice {
    queue_family: usize,
    memory_types: Vec<u32>,
    open: bool,
    phase: Phase,
    dependents: Vec<u64>,
    next_id: u64,
}

/// A dependent may be released: the context is open, no work is recorded or
/// in flight, and `id` is the most recently created live dependent.
pub open spec fn release_allowed(c: ContextView, id: u64) -> bool {
    &&& c.open
    &&& c.phase == Phase::Idle
    &&& c.dependents.len() > 0
    &&& c.dependents.last() == id
}

/// The context may be torn down: it is open and has no live dependent.
pub open spec fn teardown_allowed(c: ContextView) -> bool {
    c.open && c.dependents.len() == 0
}

/// The context after a new dependent was registered.
pub open spec fn registered(c: ContextView) -> ContextView {
    ContextView { dependents: c.dependents.push(c.next_id), next_id: (c.next_id + 1) as u64, ..c }
}

/// The context after its most recent live dependent was released.
pub open spec fn released(c: ContextView) -> ContextView {
    ContextView { dependents: c.dependents.drop_last(), ..c }
}

/// The identifiers of the live dependents increase in creation order, and
/// each was handed out before the next one to come.
pub open spec fn creation_ordered(c: ContextView) -> bool {
    &&& forall|i: int, j: int| 0 <= i < j < c.dependents.len() ==> c.dependents[i] < c.dependents[j]
    &&& forall|i: int| 0 <= i < c.dependents.len() ==> c.dependents[i] < c.next_id
}

/// The only teardown of a context: wait for idle, destroy the pool, then the session.
pub open spec fn context_teardown_steps() -> Seq<TeardownStep> {
    seq![TeardownStep::WaitIdle, TeardownStep::DestroyCommandPool, TeardownStep::DestroyDevice]
}

/// The context after a phase step `from` -> `to`, when the step is in order.
pub open spec fn phase_step(c: ContextView, from: Phase, to: Phase, r: Result<(), EngineError>, n: ContextView) -> bool {
    &&& !c.open ==> r == Err::<(), EngineError>(EngineError::ContextDestroyed) && n == c
    &&& c.open && c.phase != from ==> r == Err::<(), EngineError>(EngineError::OutOfOrder) && n == c
    &&& c.open && c.phase == from ==> r is Ok && n == ContextView { phase: to, ..c }
}

impl View for LogicalDevice {
    type V = ContextView;

    closed spec fn view(&self) -> ContextView {
        ContextView {
            queue_family: self.queue_family,
            memory_types: self.memory_types@,
            open: self.open,
            phase: self.phase,
            dependents: self.dependents@,
            next_id: self.next_id,
        }
    }
}

impl LogicalDevice {
    /// Opens a session on the selected device's compute+transfer family,
    /// with the device's memory types.
    pub fn create_logical_device(physical: PhysicalDevice) -> (r: LogicalDevice)
        ensures
            r@ == (ContextView {
                queue_family: physical.spec_queue_family(),
                memory_types: physical.spec_memory_types(),
                open: true,
                phase: Phase::Idle,
                dependents: Seq::empty(),
                next_id: 0,
            }),
            creation_ordered(r@),
    {
        let queue_family = physical.queue_family();
        let memory_types = physical.into_memory_types();
        LogicalDevice {
            queue_family,
            memory_types,
            open: true,
            phase: Phase::Idle,
            dependents: Vec::new(),
            next_id: 0,
        }
    }

    /// The one queue of the context: index 0 of its family.
    pub fn create_queue(&self) -> (r: ComputeTransferQueue)
        ensures
            r == (ComputeTransferQueue { family: self@.queue_family, index: 0 }),
    {
        ComputeTransferQueue { family: self.queue_family, index: 0 }
    }

    /// One primary command buffer from the pool of the context's family.
    pub fn create_command_buffer(&self) -> (r: CommandBufferRequest)
        ensures
            r == (CommandBufferRequest { family: self@.queue_family, count: 1, primary: true }),
    {
        CommandBufferRequest { family: self.queue_family, count: 1, primary: true }
    }

    pub fn queue_family(&self) -> (r: usize)
        ensures
            r == self@.queue_family,
    {
        self.queue_family
    }

    pub fn memory_types(&self) -> (r: &Vec<u32>)
        ensures
            r@ == self@.memory_types,
    {
        &self.memory_types
    }

    pub fn is_open(&self) -> (r: bool)
        ensures
            r == self@.open,
    {
        self.open
    }

    pub fn phase(&self) -> (r: Phase)
        ensures
            r == self@.phase,
    {
        self.phase
    }

    pub fn live_dependents(&self) -> (r: usize)
        ensures
            r == self@.dependents.len(),
    {
        self.dependents.len()
    }

    fn step(&mut self, from: Phase, to: Phase) -> (r: Result<(), EngineError>)
        ensures
            phase_step(old(self)@, from, to, r, final(self)@),
    {
        if !self.open {
            Err(EngineError::ContextDestroyed)
        } else if self.phase != from {
            Err(EngineError::OutOfOrder)
        } else {
            self.phase = to;
            Ok(())
        }
    }

    /// Idle -> Recording: the fence is unsignaled and the buffer empty.
    pub fn begin(&mut self) -> (r: Result<(), EngineError>)
        ensures
            phase_step(old(self)@, Phase::Idle, Phase::Recording, r, final(self)@),
    {
        self.step(Phase::Idle, Phase::Recording)
    }

    /// Recording -> Submitted: the batch is ended and handed to the queue.
    pub fn submit(&mut self) -> (r: Result<(), EngineError>)
        ensures
            phase_step(old(self)@, Phase::Recording, Phase::Submitted, r, final(self)@),
    {
        self.step(Phase::Recording, Phase::Submitted)
    }

    /// Submitted -> Complete: the fence has signaled after an unbounded wait.
    pub fn wait(&mut self) -> (r: Result<(), EngineError>)
        ensures
            phase_step(old(self)@, Phase::Submitted, Phase::Complete, r, final(self)@),
    {
        self.step(Phase::Submitted, Phase::Complete)
    }

    /// Complete -> Idle: the fence and the command buffer are reset.
    pub fn reset(&mut self) -> (r: Result<(), EngineError>)
        ensures
            phase_step(old(self)@, Phase::Complete, Phase::Idle, r, final(self)@),
    {
        self.step(Phase::Complete, Phase::Idle)
    }

    /// Records a new dependent of the context and hands out its identifier.
    pub(crate) fn register(&mut self) -> (r: Result<u64, LifecycleError>)
        ensures
            !old(self)@.open ==> r == Err::<u64, LifecycleError>(LifecycleError::ContextDestroyed)
                && final(self)@ == old(self)@,
            old(self)@.open && old(self)@.next_id == u64::MAX ==> r == Err::<u64, LifecycleError>(LifecycleError::IdsExhausted)
                && final(self)@ == old(self)@,
            old(self)@.open && old(self)@.next_id < u64::MAX ==> r == Ok::<u64, LifecycleError>(old(self)@.next_id)
                && final(self)@ == registered(old(self)@),
    {
        if !self.open {
            return Err(LifecycleError::ContextDestroyed);
        }
        if self.next_id == u64::MAX {
            return Err(LifecycleError::IdsExhausted);
        }
        let id = self.next_id;
        self.dependents.push(id);
        self.next_id = id + 1;
        Ok(id)
    }

    /// Releases dependent `id`: allowed only on an open, idle context, for the
    /// most recently created live dependent.
    pub fn release(&mut self, id: u64) -> (r: Result<(), LifecycleError>)
        ensures
            r is Ok <==> release_allowed(old(self)@, id),
            r is Ok ==> final(self)@ == released(old(self)@),
            r is Err ==> final(self)@ == old(self)@,
            !old(self)@.open ==> r == Err::<(), LifecycleError>(LifecycleError::ContextDestroyed),
            old(self)@.open && old(self)@.phase != Phase::Idle ==> r == Err::<(), LifecycleError>(LifecycleError::WorkInFlight),
            old(self)@.open && old(self)@.phase == Phase::Idle && !release_allowed(old(self)@, id)
                ==> r == Err::<(), LifecycleError>(LifecycleError::OutOfOrder),
    {
        if !self.open {
            return Err(LifecycleError::ContextDestroyed);
        }
        if self.phase != Phase::Idle {
            return Err(LifecycleError::WorkInFlight);
        }
        let n = self.dependents.len();
        if n == 0 || self.dependents[n - 1] != id {
            return Err(LifecycleError::OutOfOrder);
        }
        self.dependents.pop();
        Ok(())
    }

    /// Tears the context down once its dependents are gone: wait for idle,
    /// destroy the command pool, destroy the session.
    pub fn teardown(&mut self) -> (r: Result<Vec<TeardownStep>, LifecycleError>)
        ensures
            r is Ok <==> teardown_allowed(old(self)@),
            r matches Ok(steps) ==> steps@ == context_teardown_steps()
                && final(self)@ == (ContextView { open: false, phase: Phase::Idle, ..old(self)@ }),
            r is Err ==> final(self)@ == old(self)@,
            !old(self)@.open ==> r == Err::<Vec<TeardownStep>, LifecycleError>(LifecycleError::ContextDestroyed),
            old(self)@.open && old(self)@.dependents.len() > 0
                ==> r == Err::<Vec<TeardownStep>, LifecycleError>(LifecycleError::DependentsAlive),
    {
        if !self.open {
            return Err(LifecycleError::ContextDestroyed);
        }
        if self.dependents.len() > 0 {
            return Err(LifecycleError::DependentsAlive);
        }
        self.open = false;
        self.phase = Phase::Idle;
        let steps = vec![TeardownStep::WaitIdle, TeardownStep::DestroyCommandPool, TeardownStep::DestroyDevice];
        assert(steps@ =~= context_teardown_steps());
        Ok(steps)
    }
}

/// Once a context has been torn down, none of its dependents can be released
/// any more, and it cannot be torn down again.
pub proof fn lemma_no_release_after_teardown(before: ContextView, after: ContextView, id: u64)
    requires
        teardown_allowed(before),
        after == (ContextView { open: false, phase: Phase::Idle, ..before }),
    ensures
        !release_allowed(after, id),
        !teardown_allowed(after),
{
}

/// Dependents are released in the reverse order of their creation: the one a
/// release takes is newer than every dependent still live, and registering
/// and releasing keep the live ones in creation order.
pub proof fn lemma_release_in_reverse_creation_order(c: ContextView, id: u64)
    requires
        creation_ordered(c),
    ensures
        release_allowed(c, id) ==> forall|i: int| 0 <= i < c.dependents.len() - 1 ==> #[trigger] c.dependents[i] < id,
        release_allowed(c, id) ==> creation_ordered(released(c)),
        c.next_id < u64::MAX ==> creation_ordered(registered(c)),
{
    if c.next_id < u64::MAX {
        let n = registered(c);
        assert forall|i: int, j: int| 0 <= i < j < n.dependents.len() implies n.dependents[i] < n.dependents[j] by {
            if j == c.dependents.len() {
                assert(n.dependents[i] == c.dependents[i]);
            }
        }
    }
    if release_allowed(c, id) {
        let last = c.dependents.len() - 1;
        assert forall|i: int| 0 <= i < last implies #[trigger] c.dependents[i] < id by {
            assert(c.dependents[last] == id);
        }
    }
}

} // verus!
