use gpu_offload::catalog::{AcceleratorDescriptor, PhysicalDevice, DEVICE_TYPE_DISCRETE_GPU};
use gpu_offload::context::{
    CommandBufferRequest, ComputeTransferQueue, EngineError, LifecycleError, LogicalDevice, Phase, TeardownStep,
};
use gpu_offload::pipeline::{Pipeline, PipelineHandles};
use gpu_offload::resource::{
    alloc_vram, find_vram, BufferPair, MemoryAllocation, MemoryPair, MemoryRequirement, ResourceError, StagedSSBO,
    StagedUBO,
    STAGING_PROPERTIES, USAGE_STORAGE_BUFFER, USAGE_TRANSFER_DST, USAGE_TRANSFER_SRC, USAGE_UNIFORM_BUFFER,
    WORKING_PROPERTIES,
};

fn context() -> LogicalDevice {
    let catalog = vec![AcceleratorDescriptor {
        device_type: DEVICE_TYPE_DISCRETE_GPU,
        queue_families: vec![0x1, 0x2, 0x6],
        memory_types: vec![0x1, 0x6, 0xe, 0x6],
    }];
    let physical = PhysicalDevice::find_device(&catalog).unwrap();
    assert_eq!((physical.index(), physical.queue_family()), (0, 2));
    assert_eq!(physical.memory_types(), &vec![0x1, 0x6, 0xe, 0x6]);
    LogicalDevice::create_logical_device(physical)
}

fn buffers(base: u64) -> BufferPair {
    BufferPair { stage: base, working: base + 1 }
}

fn req() -> MemoryRequirement {
    MemoryRequirement { size: 256, type_bits: 0b1111 }
}

fn pipeline_handles() -> PipelineHandles {
    PipelineHandles { pipeline: 50, layout: 51, set_layout: 52, pool: 53, set: 54 }
}

#[test]
fn context_requests_one_queue_and_one_primary_buffer() {
    let ctx = context();
    assert_eq!(ctx.create_queue(), ComputeTransferQueue { family: 2, index: 0 });
    assert_eq!(ctx.create_command_buffer(), CommandBufferRequest { family: 2, count: 1, primary: true });
    assert!(ctx.is_open());
    assert_eq!(ctx.phase(), Phase::Idle);
    assert_eq!(ctx.live_dependents(), 0);
}

#[test]
fn memory_type_is_first_exact_match() {
    let types = vec![0x1, 0x6, 0xe, 0x6];
    assert_eq!(find_vram(&types, 0b1111, STAGING_PROPERTIES), Ok(1));
    assert_eq!(find_vram(&types, 0b1100, STAGING_PROPERTIES), Ok(3));
    assert_eq!(find_vram(&types, 0b1111, WORKING_PROPERTIES), Ok(0));
    // Type 2 has the staging properties and more: not an exact match.
    assert_eq!(find_vram(&types, 0b0100, STAGING_PROPERTIES), Err(ResourceError::NoSuitableMemoryType));
    assert_eq!(find_vram(&types, 0, WORKING_PROPERTIES), Err(ResourceError::NoSuitableMemoryType));
    assert_eq!(find_vram(&vec![], u32::MAX, WORKING_PROPERTIES), Err(ResourceError::NoSuitableMemoryType));
}

#[test]
fn memory_type_beyond_the_filter_width_is_never_chosen() {
    let mut types = vec![0u32; 33];
    types[32] = WORKING_PROPERTIES;
    assert_eq!(find_vram(&types, u32::MAX, WORKING_PROPERTIES), Err(ResourceError::NoSuitableMemoryType));
    types[31] = WORKING_PROPERTIES;
    assert_eq!(find_vram(&types, u32::MAX, WORKING_PROPERTIES), Ok(31));
}

#[test]
fn allocation_uses_context_memory_types() {
    let ctx = context();
    assert_eq!(alloc_vram(&ctx, 4096, 0b1010, STAGING_PROPERTIES), Ok(MemoryAllocation { size: 4096, type_index: 1 }));
    assert_eq!(alloc_vram(&ctx, 4096, 0b0100, WORKING_PROPERTIES), Err(ResourceError::NoSuitableMemoryType));
}

#[test]
fn result_resource_size_is_element_size_times_count() {
    let l = StagedSSBO::layout(4, 1920 * 1200 * 4).unwrap();
    assert_eq!(l.size, 4 * 1920 * 1200 * 4);
    assert_eq!(l.element_size, 4);
    assert_eq!(l.element_count, 1920 * 1200 * 4);
    assert_eq!(l.stage_usage, USAGE_TRANSFER_DST);
    assert_eq!(l.working_usage, USAGE_STORAGE_BUFFER | USAGE_TRANSFER_SRC);
    assert_eq!(StagedSSBO::layout(3, 0).unwrap().size, 0);
    assert_eq!(StagedSSBO::layout(0, 10), Err(ResourceError::InvalidSize));
    assert_eq!(StagedSSBO::layout(2, usize::MAX), Err(ResourceError::InvalidSize));
}

#[test]
fn parameter_resource_holds_its_data() {
    let mut ctx = context();
    let ubo = StagedUBO::new(&mut ctx, vec![1, 2, 3, 4, 5], buffers(10), req(), req()).unwrap();
    assert_eq!(ubo.get_size(), 5);
    assert_eq!(ubo.get_slice(), &[1, 2, 3, 4, 5]);
    assert_eq!(ubo.get_stage(), 10);
    assert_eq!(ubo.get_ubo(), 11);
    let l = ubo.buffer.layout();
    assert_eq!((l.element_size, l.element_count), (1, 5));
    assert_eq!(l.stage_usage, USAGE_TRANSFER_SRC);
    assert_eq!(l.working_usage, USAGE_UNIFORM_BUFFER | USAGE_TRANSFER_DST);
    assert_eq!(ctx.live_dependents(), 1);
}

#[test]
fn result_resource_starts_zeroed() {
    let mut ctx = context();
    let ssbo = StagedSSBO::new(&mut ctx, 4, 3, buffers(20), req(), req()).unwrap();
    assert_eq!(ssbo.get_size(), 12);
    assert_eq!(ssbo.buffer.len(), 3);
    assert_eq!(ssbo.get_slice(), &[0u8; 12]);
    assert_eq!(ssbo.get_ssbo(), 21);
    assert_eq!(ssbo.get_stage(), 20);
    assert!(matches!(StagedSSBO::new(&mut ctx, 0, 3, buffers(30), req(), req()), Err(ResourceError::InvalidSize)));
    assert_eq!(ctx.live_dependents(), 1);
}

#[test]
fn staging_write_then_read_is_identity() {
    let mut ctx = context();
    let mut ssbo = StagedSSBO::new(&mut ctx, 4, 4, buffers(20), req(), req()).unwrap();
    assert_eq!(ssbo.buffer.write(5, &[9, 8, 7]), Ok(()));
    assert_eq!(ssbo.buffer.read(5, 3), Some(vec![9, 8, 7]));
    assert_eq!(ssbo.get_slice(), &[0, 0, 0, 0, 0, 9, 8, 7, 0, 0, 0, 0, 0, 0, 0, 0]);
    assert_eq!(ssbo.buffer.write(14, &[1, 2, 3]), Err(ResourceError::OutOfBounds));
    assert_eq!(ssbo.buffer.read(14, 3), None);
    assert_eq!(ssbo.buffer.write(16, &[]), Ok(()));
    assert_eq!(ssbo.get_slice()[5..8], [9, 8, 7]);
}

#[test]
fn refresh_takes_the_mapped_contents() {
    let mut ctx = context();
    let mut ssbo = StagedSSBO::new(&mut ctx, 2, 2, buffers(20), req(), req()).unwrap();
    assert_eq!(ssbo.buffer.refresh(&[1, 2, 3, 4]), Ok(()));
    assert_eq!(ssbo.get_slice(), &[1, 2, 3, 4]);
    assert_eq!(ssbo.buffer.refresh(&[1, 2, 3]), Err(ResourceError::OutOfBounds));
    assert_eq!(ssbo.get_slice(), &[1, 2, 3, 4]);
}

#[test]
fn phases_run_in_fixed_order() {
    let mut ctx = context();
    assert_eq!(ctx.submit(), Err(EngineError::OutOfOrder));
    assert_eq!(ctx.wait(), Err(EngineError::OutOfOrder));
    assert_eq!(ctx.reset(), Err(EngineError::OutOfOrder));
    assert_eq!(ctx.begin(), Ok(()));
    assert_eq!(ctx.phase(), Phase::Recording);
    assert_eq!(ctx.begin(), Err(EngineError::OutOfOrder));
    assert_eq!(ctx.submit(), Ok(()));
    assert_eq!(ctx.phase(), Phase::Submitted);
    assert_eq!(ctx.reset(), Err(EngineError::OutOfOrder));
    assert_eq!(ctx.wait(), Ok(()));
    assert_eq!(ctx.phase(), Phase::Complete);
    assert_eq!(ctx.begin(), Err(EngineError::OutOfOrder));
    assert_eq!(ctx.reset(), Ok(()));
    assert_eq!(ctx.phase(), Phase::Idle);
}

#[test]
fn teardown_is_idle_wait_then_reverse_order() {
    let mut ctx = context();
    let ubo = StagedUBO::new(&mut ctx, vec![0; 16], buffers(10), req(), req()).unwrap();
    let mut ssbo = StagedSSBO::new(&mut ctx, 4, 4, buffers(20), req(), req()).unwrap();
    ssbo.buffer.bind_memory(MemoryPair { stage: 22, working: 23 }).unwrap();
    let pipe = Pipeline::new(&mut ctx, pipeline_handles(), &ubo, &ssbo).unwrap();
    assert_eq!(ctx.live_dependents(), 3);

    // Not while dependents are alive, and not out of order.
    assert_eq!(ctx.teardown(), Err(LifecycleError::DependentsAlive));
    assert_eq!(ubo.buffer.destroy(&mut ctx), Err(LifecycleError::OutOfOrder));

    // Not while work is in flight.
    ctx.begin().unwrap();
    ctx.submit().unwrap();
    assert_eq!(pipe.destroy(&mut ctx), Err(LifecycleError::WorkInFlight));
    ctx.wait().unwrap();
    ctx.reset().unwrap();

    assert_eq!(
        pipe.destroy(&mut ctx).unwrap(),
        vec![
            TeardownStep::FreeDescriptorSet { pool: 53, set: 54 },
            TeardownStep::DestroyDescriptorPool(53),
            TeardownStep::DestroyPipelineLayout(51),
            TeardownStep::DestroyDescriptorSetLayout(52),
            TeardownStep::DestroyPipeline(50),
        ]
    );
    assert_eq!(
        ssbo.buffer.destroy(&mut ctx).unwrap(),
        vec![
            TeardownStep::UnmapMemory(22),
            TeardownStep::FreeMemory(23),
            TeardownStep::FreeMemory(22),
            TeardownStep::DestroyBuffer(21),
            TeardownStep::DestroyBuffer(20),
        ]
    );
    assert_eq!(
        ubo.buffer.destroy(&mut ctx).unwrap(),
        vec![TeardownStep::DestroyBuffer(11), TeardownStep::DestroyBuffer(10)]
    );
    assert_eq!(
        ctx.teardown().unwrap(),
        vec![TeardownStep::WaitIdle, TeardownStep::DestroyCommandPool, TeardownStep::DestroyDevice]
    );
    assert!(!ctx.is_open());

    // After the context is gone nothing can be released, made or torn down again.
    assert_eq!(ubo.buffer.destroy(&mut ctx), Err(LifecycleError::ContextDestroyed));
    assert_eq!(ctx.teardown(), Err(LifecycleError::ContextDestroyed));
    assert_eq!(ctx.begin(), Err(EngineError::ContextDestroyed));
    assert!(matches!(
        StagedUBO::new(&mut ctx, vec![1], buffers(40), req(), req()),
        Err(ResourceError::Lifecycle(LifecycleError::ContextDestroyed))
    ));
    assert!(matches!(
        Pipeline::new(&mut ctx, pipeline_handles(), &ubo, &ssbo),
        Err(LifecycleError::ContextDestroyed)
    ));
}

#[test]
fn paired_resource_plans_exact_memory_types() {
    let mut ctx = context();
    let stage = MemoryRequirement { size: 64, type_bits: 0b1110 };
    let working = MemoryRequirement { size: 128, type_bits: 0b0001 };
    let mut ubo = StagedUBO::new(&mut ctx, vec![0; 48], buffers(10), stage, working).unwrap();
    assert_eq!(ubo.buffer.stage_allocation(), MemoryAllocation { size: 64, type_index: 1 });
    assert_eq!(ubo.buffer.working_allocation(), MemoryAllocation { size: 128, type_index: 0 });
    assert_eq!(ubo.buffer.memory(), None);
    assert_eq!(ubo.buffer.bind_memory(MemoryPair { stage: 12, working: 13 }), Ok(()));
    assert_eq!(ubo.buffer.memory(), Some(MemoryPair { stage: 12, working: 13 }));
    assert_eq!(ubo.buffer.bind_memory(MemoryPair { stage: 14, working: 15 }), Err(ResourceError::AlreadyBound));
    assert_eq!(ubo.buffer.memory(), Some(MemoryPair { stage: 12, working: 13 }));
    // Only type 3 has the staging properties among the allowed ones.
    let ssbo = StagedSSBO::new(&mut ctx, 4, 4, buffers(20), MemoryRequirement { size: 16, type_bits: 0b1000 }, working)
        .unwrap();
    assert_eq!(ssbo.buffer.stage_allocation(), MemoryAllocation { size: 16, type_index: 3 });
    assert_eq!(ctx.live_dependents(), 2);
}

#[test]
fn paired_resource_fails_without_matching_memory_type() {
    let mut ctx = context();
    // Type 2 is host-visible and host-coherent but also cached: not an exact match.
    let no_staging = MemoryRequirement { size: 64, type_bits: 0b0100 };
    let no_working = MemoryRequirement { size: 64, type_bits: 0b1110 };
    assert!(matches!(
        StagedUBO::new(&mut ctx, vec![0; 8], buffers(10), no_staging, req()),
        Err(ResourceError::NoSuitableMemoryType)
    ));
    assert!(matches!(
        StagedUBO::new(&mut ctx, vec![0; 8], buffers(10), req(), no_working),
        Err(ResourceError::NoSuitableMemoryType)
    ));
    assert!(matches!(
        StagedSSBO::new(&mut ctx, 4, 2, buffers(20), req(), no_working),
        Err(ResourceError::NoSuitableMemoryType)
    ));
    assert!(matches!(
        StagedSSBO::new(&mut ctx, 0, 2, buffers(20), no_staging, no_working),
        Err(ResourceError::InvalidSize)
    ));
    assert_eq!(ctx.live_dependents(), 0);
}
