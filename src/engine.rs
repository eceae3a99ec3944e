//! The command execution engine: what each of the three phases of an
//! iteration records, the dispatch grid, the order of an iteration's steps,
//! and a model of what the recorded copies and an identity kernel do to
//! device memory.

use vstd::prelude::*;
use crate::pipeline::{DescriptorWrite, Pipeline, PipelineHandles};
use crate::resource::{BufferPair, StagedSSBO, StagedUBO, StagedView};

verus! {

/// The local work-group size the kernel is compiled against, in each of x and y.
pub const LOCAL_SIZE: u32 = 32;

/// One recorded command.
#[derive(Debug, Clone, Copy, PartialEq, Eq, Structural)]
pub enum Command {
    /// Copies bytes `0..size` of buffer `src` onto buffer `dst`.
    CopyBuffer { src: u64, dst: u64, size: u64 },
    BindPipeline(u64),
    BindDescriptorSet { layout: u64, set: u64 },
    Dispatch { x: u32, y: u32, z: u32 },
}

/// `ceil(extent / local)`.
pub open spec fn groups_for(extent: u32, local: u32) -> int
    recommends
        local > 0,
{
    (extent as int + local as int - 1) / (local as int)
}

/// The number of work groups that cover `extent` invocations, `local` per group.
pub fn group_count(extent: u32, local: u32) -> (r: u32)
    requires
        local > 0,
    ensures
        r as int == groups_for(extent, local),
        r as int * local as int >= extent as int,
        (r as int - 1) * (local as int) < extent as int,
{
    let q = extent / local;
    let rem = extent % local;
    proof {
        vstd::arithmetic::div_mod::lemma_fundamental_div_mod(extent as int, local as int);
        assert(extent as int == q as int * local as int + rem as int) by (nonlinear_arith)
            requires
                extent as int == local as int * (extent as int / local as int) + extent as int % local as int,
                q as int == extent as int / local as int,
                rem as int == extent as int % local as int;
    }
    if rem == 0 {
        proof {
            vstd::arithmetic::div_mod::lemma_fundamental_div_mod_converse(
                extent as int + local as int - 1, local as int, q as int, local as int - 1);
            assert((q as int - 1) * (local as int) < extent as int) by (nonlinear_arith)
                requires
                    extent as int == q as int * local as int,
                    local > 0;
        }
        q
    } else {
        proof {
            assert(extent as int + local as int - 1 == (q as int + 1) * local as int + (rem as int - 1))
                by (nonlinear_arith)
                requires
                    extent as int == q as int * local as int + rem as int;
            vstd::arithmetic::div_mod::lemma_fundamental_div_mod_converse(
                extent as int + local as int - 1, local as int, q as int + 1, rem as int - 1);
            assert(q < u32::MAX) by (nonlinear_arith)
                requires
                    q as int * local as int + rem as int == extent as int,
                    rem > 0,
                    local > 0,
                    extent <= u32::MAX;
            assert((q as int + 1) * (local as int) >= extent as int) by (nonlinear_arith)
                requires
                    extent as int == q as int * local as int + rem as int,
                    rem < local;
        }
        q + 1
    }
}

/// The work groups of a dispatch over a `width` x `height` image.
pub fn dispatch_grid(width: u32, height: u32) -> (r: (u32, u32, u32))
    ensures
        r.0 as int == groups_for(width, LOCAL_SIZE),
        r.1 as int == groups_for(height, LOCAL_SIZE),
        r.2 == 1,
{
    (group_count(width, LOCAL_SIZE), group_count(height, LOCAL_SIZE), 1)
}

/// Host to device: the full staging range of the parameter resource onto its working buffer.
pub open spec fn upload_commands(h: BufferPair, size: usize) -> Seq<Command> {
    seq![Command::CopyBuffer { src: h.stage, dst: h.working, size: size as u64 }]
}

/// Bind the pipeline and its descriptor set, then dispatch the grid.
pub open spec fn compute_commands(p: PipelineHandles, width: u32, height: u32) -> Seq<Command> {
    seq![
        Command::BindPipeline(p.pipeline),
        Command::BindDescriptorSet { layout: p.layout, set: p.set },
        Command::Dispatch {
            x: groups_for(width, LOCAL_SIZE) as u32,
            y: groups_for(height, LOCAL_SIZE) as u32,
            z: 1,
        },
    ]
}

/// Device to host: the full working range of the result resource onto its staging buffer.
pub open spec fn download_commands(h: BufferPair, size: usize) -> Seq<Command> {
    seq![Command::CopyBuffer { src: h.working, dst: h.stage, size: size as u64 }]
}

/// What the upload phase records.
pub fn upload_phase(ubo: &StagedUBO) -> (r: Vec<Command>)
    ensures
        r@ == upload_commands(ubo.buffer@.buffers, ubo.buffer@.layout.size),
{
    let r = vec![Command::CopyBuffer { src: ubo.get_stage(), dst: ubo.get_ubo(), size: ubo.get_size() as u64 }];
    assert(r@ =~= upload_commands(ubo.buffer@.buffers, ubo.buffer@.layout.size));
    r
}

/// What the compute phase records for a `width` x `height` image.
pub fn compute_phase(pipe: &Pipeline, width: u32, height: u32) -> (r: Vec<Command>)
    ensures
        r@ == compute_commands(pipe.handles, width, height),
{
    let (x, y, z) = dispatch_grid(width, height);
    let r = vec![
        Command::BindPipeline(pipe.handles.pipeline),
        Command::BindDescriptorSet { layout: pipe.handles.layout, set: pipe.handles.set },
        Command::Dispatch { x, y, z },
    ];
    assert(r@ =~= compute_commands(pipe.handles, width, height));
    r
}

/// What the download phase records.
pub fn download_phase(ssbo: &StagedSSBO) -> (r: Vec<Command>)
    ensures
        r@ == download_commands(ssbo.buffer@.buffers, ssbo.buffer@.layout.size),
{
    let r = vec![Command::CopyBuffer { src: ssbo.get_ssbo(), dst: ssbo.get_stage(), size: ssbo.get_size() as u64 }];
    assert(r@ =~= download_commands(ssbo.buffer@.buffers, ssbo.buffer@.layout.size));
    r
}

/// Device memory as the contents of each buffer, by handle.
pub open spec fn copy_effect(mem: Map<u64, Seq<u8>>, src: u64, dst: u64, size: u64) -> Map<u64, Seq<u8>> {
    if mem.contains_key(src) && mem.contains_key(dst) && size <= mem[src].len() && size <= mem[dst].len() {
        mem.insert(dst, mem[src].subrange(0, size as int) + mem[dst].subrange(size as int, mem[dst].len() as int))
    } else {
        mem
    }
}

/// An identity kernel: slot 1's buffer receives the contents of slot 0's.
pub open spec fn identity_kernel(mem: Map<u64, Seq<u8>>, writes: Seq<DescriptorWrite>) -> Map<u64, Seq<u8>> {
    if writes.len() == 2 && mem.contains_key(writes[0].buffer) {
        mem.insert(writes[1].buffer, mem[writes[0].buffer])
    } else {
        mem
    }
}

/// The effect of one command when the bound kernel is the identity.
pub open spec fn apply_identity(mem: Map<u64, Seq<u8>>, cmd: Command, writes: Seq<DescriptorWrite>) -> Map<u64, Seq<u8>> {
    match cmd {
        Command::CopyBuffer { src, dst, size } => copy_effect(mem, src, dst, size),
        Command::Dispatch { .. } => identity_kernel(mem, writes),
        _ => mem,
    }
}

/// The effect of a sequence of commands, in order.
pub open spec fn run_identity(mem: Map<u64, Seq<u8>>, cmds: Seq<Command>, writes: Seq<DescriptorWrite>) -> Map<u64, Seq<u8>>
    decreases cmds.len(),
{
    if cmds.len() == 0 {
        mem
    } else {
        run_identity(apply_identity(mem, cmds[0], writes), cmds.drop_first(), writes)
    }
}

proof fn lemma_run_append(mem: Map<u64, Seq<u8>>, a: Seq<Command>, b: Seq<Command>, writes: Seq<DescriptorWrite>)
    ensures
        run_identity(mem, a + b, writes) == run_identity(run_identity(mem, a, writes), b, writes),
    decreases a.len(),
{
    if a.len() > 0 {
        assert((a + b).drop_first() =~= a.drop_first() + b);
        lemma_run_append(apply_identity(mem, a[0], writes), a.drop_first(), b, writes);
    } else {
        assert(a + b =~= b);
    }
}

/// One iteration with an identity kernel carries the parameter staging
/// contents to the result staging buffer: upload, dispatch and download, on
/// a pipeline bound to the two working buffers of two resources of equal size.
pub proof fn lemma_identity_round_trip(
    mem: Map<u64, Seq<u8>>,
    ubo: BufferPair,
    ssbo: BufferPair,
    size: usize,
    pipe: PipelineHandles,
    width: u32,
    height: u32,
)
    requires
        mem.contains_key(ubo.stage) && mem[ubo.stage].len() == size,
        mem.contains_key(ubo.working) && mem[ubo.working].len() == size,
        mem.contains_key(ssbo.stage) && mem[ssbo.stage].len() == size,
        mem.contains_key(ssbo.working) && mem[ssbo.working].len() == size,
        ubo.working != ssbo.stage,
    ensures
        run_identity(
            mem,
            upload_commands(ubo, size) + compute_commands(pipe, width, height) + download_commands(ssbo, size),
            crate::pipeline::writes_for(ubo.working, size, ssbo.working, size),
        )[ssbo.stage] == mem[ubo.stage],
{
    let writes = crate::pipeline::writes_for(ubo.working, size, ssbo.working, size);
    let up = upload_commands(ubo, size);
    let comp = compute_commands(pipe, width, height);
    let down = download_commands(ssbo, size);
    lemma_run_append(mem, up + comp, down, writes);
    lemma_run_append(mem, up, comp, writes);
    reveal_with_fuel(run_identity, 4);
    let m1 = run_identity(mem, up, writes);
    assert(up.drop_first() =~= Seq::<Command>::empty());
    assert(m1 == copy_effect(mem, ubo.stage, ubo.working, size as u64));
    assert(m1[ubo.working] =~= mem[ubo.stage]);
    let m2 = run_identity(m1, comp, writes);
    assert(comp.drop_first().drop_first().drop_first() =~= Seq::<Command>::empty());
    assert(m2 == identity_kernel(m1, writes));
    assert(m2[ssbo.working] == mem[ubo.stage]);
    let m3 = run_identity(m2, down, writes);
    assert(down.drop_first() =~= Seq::<Command>::empty());
    assert(m3 == copy_effect(m2, ssbo.working, ssbo.stage, size as u64));
    assert(m2.contains_key(ssbo.stage));
    assert(m3[ssbo.stage] =~= mem[ubo.stage]);
}

/// The round trip stated over two paired resources: when device memory holds
/// the parameter resource's staging image in its staging buffer and every
/// buffer at the resources' common size, one iteration with an identity
/// kernel on a pipeline bound to the two resources leaves that image in the
/// result resource's staging buffer.
pub proof fn lemma_resource_round_trip(
    mem: Map<u64, Seq<u8>>,
    ubo: StagedView,
    ssbo: StagedView,
    pipe: PipelineHandles,
    width: u32,
    height: u32,
)
    requires
        ubo.wf(),
        ssbo.wf(),
        ubo.layout.size == ssbo.layout.size,
        mem.contains_key(ubo.buffers.stage) && mem[ubo.buffers.stage] == ubo.bytes,
        mem.contains_key(ubo.buffers.working) && mem[ubo.buffers.working].len() == ubo.layout.size,
        mem.contains_key(ssbo.buffers.stage) && mem[ssbo.buffers.stage].len() == ssbo.layout.size,
        mem.contains_key(ssbo.buffers.working) && mem[ssbo.buffers.working].len() == ssbo.layout.size,
        ubo.buffers.working != ssbo.buffers.stage,
    ensures
        run_identity(
            mem,
            upload_commands(ubo.buffers, ubo.layout.size) + compute_commands(pipe, width, height)
                + download_commands(ssbo.buffers, ssbo.layout.size),
            crate::pipeline::writes_for(ubo.buffers.working, ubo.layout.size, ssbo.buffers.working, ssbo.layout.size),
        )[ssbo.buffers.stage] == ubo.bytes,
{
    lemma_identity_round_trip(mem, ubo.buffers, ssbo.buffers, ubo.layout.size, pipe, width, height);
}

/// One step of the frame loop.
#[derive(Debug, Clone, Copy, PartialEq, Eq, Structural)]
pub enum FrameStep {
    /// Rewrite the parameter staging image for this iteration.
    Prepare(u32),
    Upload,
    Compute,
    Download,
    /// Hand this iteration's results on.
    Deliver(u32),
    Finished,
}

/// Step `k` of a run of `iterations` iterations: each iteration prepares,
/// uploads, computes, downloads and delivers, in that order.
pub open spec fn step_at(iterations: u32, k: int) -> FrameStep {
    if k < 0 || k >= 5 * iterations {
        FrameStep::Finished
    } else if k % 5 == 0 {
        FrameStep::Prepare((k / 5) as u32)
    } else if k % 5 == 1 {
        FrameStep::Upload
    } else if k % 5 == 2 {
        FrameStep::Compute
    } else if k % 5 == 3 {
        FrameStep::Download
    } else {
        FrameStep::Deliver((k / 5) as u32)
    }
}

/// The frame production loop's position in its schedule.
pub struct FrameLoop {
    iterations: u32,
    iteration: u32,
    phase: u8,
}

impl FrameLoop {
    pub closed spec fn iterations(&self) -> u32 {
        self.iterations
    }

    /// How many steps have been handed out.
    pub closed spec fn position(&self) -> int {
        5 * self.iteration + self.phase
    }

    pub closed spec fn wf(&self) -> bool {
        &&& self.phase < 5
        &&& self.iteration <= self.iterations
        &&& self.iteration == self.iterations ==> self.phase == 0
    }

    pub fn new(iterations: u32) -> (r: FrameLoop)
        ensures
            r.wf(),
            r.iterations() == iterations,
            r.position() == 0,
    {
        FrameLoop { iterations, iteration: 0, phase: 0 }
    }

    /// The next step of the schedule; once all iterations are done, `Finished`.
    pub fn next(&mut self) -> (r: FrameStep)
        requires
            old(self).wf(),
        ensures
            final(self).wf(),
            r == step_at(old(self).iterations(), old(self).position()),
            final(self).iterations() == old(self).iterations(),
            final(self).position() == if old(self).position() < 5 * old(self).iterations() {
                old(self).position() + 1
            } else {
                old(self).position()
            },
    {
        if self.iteration >= self.iterations {
            return FrameStep::Finished;
        }
        let i = self.iteration;
        let p = self.phase;
        proof {
            let k = 5 * i as int + p as int;
            assert(k % 5 == p as int && k / 5 == i as int) by {
                vstd::arithmetic::div_mod::lemma_fundamental_div_mod_converse(k, 5, i as int, p as int);
            }
        }
        let r = if p == 0 {
            FrameStep::Prepare(i)
        } else if p == 1 {
            FrameStep::Upload
        } else if p == 2 {
            FrameStep::Compute
        } else if p == 3 {
            FrameStep::Download
        } else {
            FrameStep::Deliver(i)
        };
        if p == 4 {
            self.iteration = i + 1;
            self.phase = 0;
        } else {
            self.phase = p + 1;
        }
        r
    }
}

} // verus!
