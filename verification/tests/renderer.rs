use enegine::flags::STAGE_COLOR_ATTACHMENT_OUTPUT;
use enegine::frame::{FrameEvent, Phase, SlotState, Stage};
use enegine::lifetime::{DestroyOp, ResourceKind};
use enegine::renderer::{
    fits, matches_plan, Command, DeviceHandles, DrawPlan, FrameAction, FrameSync, InstallError, MeshHandles,
    PerImage, PipelineHandles, RecreateError, RenderFailure, Renderer, RendererError,
    SwapchainResources,
};
use enegine::status::{
    ErrorKind, ERROR_DEVICE_LOST, ERROR_OUT_OF_DATE, ERROR_OUT_OF_DEVICE_MEMORY,
};
use enegine::teardown::discard;
use enegine::swapchain::{
    Extent2D, SurfaceCapabilities, SurfaceFormat, Swapchain, SwapchainPlan, EXTENT_UNDEFINED,
};

const TIMEOUT_NS: u64 = 1_000_000_000;

fn extent(width: u32, height: u32) -> Extent2D {
    Extent2D { width, height }
}

fn format() -> SurfaceFormat {
    SurfaceFormat { format: 50, color_space: 0 }
}

fn device() -> DeviceHandles {
    DeviceHandles {
        instance: 1,
        device: 2,
        surface: 3,
        present_queue: 4,
        queue_family_index: 0,
        command_pool: 5,
        debug_messenger: Some(6),
    }
}

fn pipeline() -> PipelineHandles {
    PipelineHandles {
        render_pass: 10,
        descriptor_set_layout: 11,
        pipeline_layout: 12,
        graphics_pipeline: 13,
    }
}

fn mesh() -> MeshHandles {
    MeshHandles {
        vertex_buffer: 20,
        vertex_buffer_mem: 21,
        index_buffer: 22,
        index_buffer_mem: 23,
        index_count: 6,
        texture_image: Some(24),
        texture_image_mem: Some(25),
    }
}

fn sync(frames: u64) -> Vec<FrameSync> {
    (0..frames)
        .map(|f| FrameSync {
            image_available: 100 + f,
            render_finished: 200 + f,
            fence: 300 + f,
        })
        .collect()
}

fn plan(images: u32, size: Extent2D) -> SwapchainPlan {
    SwapchainPlan {
        format: format(),
        present_mode: 2,
        extent: size,
        image_count: images,
        pre_transform: 1,
    }
}

/// Resources for `images` images and `frames` slots, with handles that tell
/// kind, generation and index apart.
fn resources(generation: u64, images: u64, frames: u64, size: Extent2D) -> SwapchainResources {
    let base = generation * 10_000;
    let swapchain = Swapchain::new(
        3,
        plan(images as u32, size),
        base + 1,
        (0..images).map(|i| base + 1000 + i).collect(),
        (0..images).map(|i| base + 2000 + i).collect(),
        (0..images).map(|i| base + 3000 + i).collect(),
    )
    .unwrap();
    SwapchainResources {
        swapchain,
        command_buffers: (0..frames).map(|f| base + 4000 + f).collect(),
        per_image: PerImage {
            uniform_buffers: (0..images).map(|i| base + 5000 + i).collect(),
            uniform_buffers_mem: (0..images).map(|i| base + 6000 + i).collect(),
            descriptor_pool: Some(base + 7000),
            descriptor_sets: (0..images).map(|i| base + 8000 + i).collect(),
        },
    }
}

fn renderer(images: u64, frames: u64) -> Renderer {
    Renderer::new(
        device(),
        pipeline(),
        mesh(),
        sync(frames),
        plan(images as u32, extent(800, 600)),
        resources(1, images, frames, extent(800, 600)),
        extent(800, 600),
        TIMEOUT_NS,
    )
    .unwrap()
}

fn caps(min: u32, max: u32, current: Extent2D) -> SurfaceCapabilities {
    SurfaceCapabilities {
        min_image_count: min,
        max_image_count: max,
        current_extent: current,
        min_image_extent: extent(1, 1),
        max_image_extent: extent(4096, 4096),
        current_transform: 1,
    }
}

fn destroy(kind: ResourceKind, handle: u64) -> DestroyOp {
    DestroyOp::Destroy { kind, handle }
}

/// Runs one frame that meets no trouble and returns its draw plan.
fn run_frame(r: &mut Renderer, image: u32) -> DrawPlan {
    let mut action = r.render(FrameEvent::Begin);
    if let FrameAction::WaitFence { .. } = action {
        action = r.render(FrameEvent::Fence(Ok(())));
    }
    assert!(matches!(action, FrameAction::Acquire { .. }));
    let plan = match r.render(FrameEvent::Acquired(Ok((image, false)))) {
        FrameAction::Draw(plan) => plan,
        other => panic!("no draw: {:?}", other),
    };
    assert!(matches!(r.render(FrameEvent::Submitted(Ok(()))), FrameAction::Present { .. }));
    assert_eq!(r.render(FrameEvent::Presented(Ok(false))), FrameAction::Done);
    plan
}

fn size_dependent_ops(generation: u64, images: u64, frames: u64) -> Vec<DestroyOp> {
    let base = generation * 10_000;
    let mut ops = Vec::new();
    for i in 0..images {
        ops.push(destroy(ResourceKind::Framebuffer, base + 3000 + i));
    }
    for f in 0..frames {
        ops.push(destroy(ResourceKind::CommandBuffer, base + 4000 + f));
    }
    for i in 0..images {
        ops.push(destroy(ResourceKind::ImageView, base + 2000 + i));
    }
    ops.push(destroy(ResourceKind::Swapchain, base + 1));
    for i in 0..images {
        ops.push(destroy(ResourceKind::UniformBuffer, base + 5000 + i));
    }
    for i in 0..images {
        ops.push(destroy(ResourceKind::UniformMemory, base + 6000 + i));
    }
    ops.push(destroy(ResourceKind::DescriptorPool, base + 7000));
    ops
}

fn device_ops(frames: u64) -> Vec<DestroyOp> {
    let mut ops = vec![
        destroy(ResourceKind::Pipeline, 13),
        destroy(ResourceKind::PipelineLayout, 12),
        destroy(ResourceKind::RenderPass, 10),
        destroy(ResourceKind::DescriptorSetLayout, 11),
        destroy(ResourceKind::VertexBuffer, 20),
        destroy(ResourceKind::VertexMemory, 21),
        destroy(ResourceKind::IndexBuffer, 22),
        destroy(ResourceKind::IndexMemory, 23),
        destroy(ResourceKind::TextureImage, 24),
        destroy(ResourceKind::TextureMemory, 25),
        destroy(ResourceKind::CommandPool, 5),
    ];
    for f in 0..frames {
        ops.push(destroy(ResourceKind::ImageAvailableSemaphore, 100 + f));
    }
    for f in 0..frames {
        ops.push(destroy(ResourceKind::RenderFinishedSemaphore, 200 + f));
    }
    for f in 0..frames {
        ops.push(destroy(ResourceKind::Fence, 300 + f));
    }
    ops.push(destroy(ResourceKind::DebugMessenger, 6));
    ops.push(destroy(ResourceKind::Surface, 3));
    ops.push(destroy(ResourceKind::Device, 2));
    ops.push(destroy(ResourceKind::Instance, 1));
    ops
}

fn position(ops: &[DestroyOp], kind: ResourceKind) -> (usize, usize) {
    let hits: Vec<usize> = ops
        .iter()
        .enumerate()
        .filter(|(_, op)| matches!(op, DestroyOp::Destroy { kind: k, .. } if *k == kind))
        .map(|(i, _)| i)
        .collect();
    (hits[0], hits[hits.len() - 1])
}

#[test]
fn renderer_starts_ready_with_what_it_was_given() {
    let r = renderer(3, 2);
    assert!(r.is_well_formed());
    assert_eq!(r.device, device());
    assert_eq!(r.pipeline, pipeline());
    assert_eq!(r.mesh, mesh());
    assert_eq!(r.sync, sync(2));
    assert_eq!(r.negotiated, plan(3, extent(800, 600)));
    assert_eq!(r.drawable, extent(800, 600));
    assert_eq!(r.timeout, TIMEOUT_NS);
    assert_eq!(r.image_count(), 3);
    assert_eq!(r.scheduler.frames_in_flight, 2);
    assert_eq!(r.scheduler.current_frame, 0);
    assert_eq!(r.scheduler.phase, Phase::Ready);
    assert_eq!(r.scheduler.slots, vec![SlotState::Idle, SlotState::Idle]);
    assert_eq!(r.resources, Some(resources(1, 3, 2, extent(800, 600))));
}

#[test]
fn renderer_needs_a_frame_slot() {
    let r = Renderer::new(
        device(),
        pipeline(),
        mesh(),
        Vec::new(),
        plan(3, extent(800, 600)),
        resources(1, 3, 0, extent(800, 600)),
        extent(800, 600),
        TIMEOUT_NS,
    );
    assert_eq!(r.err(), Some(RendererError::NoFrameSlots));
}

#[test]
fn renderer_refuses_resources_that_do_not_agree_in_number() {
    let build = |res: SwapchainResources| {
        Renderer::new(
            device(),
            pipeline(),
            mesh(),
            sync(2),
            plan(3, extent(800, 600)),
            res,
            extent(800, 600),
            TIMEOUT_NS,
        )
        .err()
    };
    assert_eq!(build(resources(1, 3, 2, extent(800, 600))), None);
    assert_eq!(build(resources(1, 3, 3, extent(800, 600))), Some(RendererError::CountMismatch));
    let mut res = resources(1, 3, 2, extent(800, 600));
    res.per_image.uniform_buffers.pop();
    assert!(!fits(&res, 2));
    assert_eq!(build(res), Some(RendererError::CountMismatch));
    let mut res = resources(1, 3, 2, extent(800, 600));
    res.per_image.uniform_buffers_mem.push(1);
    assert_eq!(build(res), Some(RendererError::CountMismatch));
    let mut res = resources(1, 3, 2, extent(800, 600));
    res.per_image.descriptor_sets.clear();
    assert_eq!(build(res), Some(RendererError::CountMismatch));
    let mut res = resources(1, 3, 2, extent(800, 600));
    res.per_image.descriptor_pool = None;
    assert_eq!(build(res), Some(RendererError::CountMismatch));
    let mut res = resources(1, 3, 2, extent(800, 600));
    res.swapchain.framebuffers.pop();
    assert_eq!(build(res), Some(RendererError::CountMismatch));
}

#[test]
fn renderer_refuses_a_swapchain_that_was_not_negotiated() {
    let build = |res: SwapchainResources| {
        Renderer::new(
            device(),
            pipeline(),
            mesh(),
            sync(2),
            plan(3, extent(800, 600)),
            res,
            extent(800, 600),
            TIMEOUT_NS,
        )
        .err()
    };
    // More images than asked for are fine, fewer are not.
    assert_eq!(build(resources(1, 4, 2, extent(800, 600))), None);
    assert_eq!(build(resources(1, 2, 2, extent(800, 600))), Some(RendererError::PlanMismatch));
    assert_eq!(build(resources(1, 3, 2, extent(800, 601))), Some(RendererError::PlanMismatch));
    let mut res = resources(1, 3, 2, extent(800, 600));
    res.swapchain.present_mode = 1;
    assert_eq!(build(res), Some(RendererError::PlanMismatch));
    let mut res = resources(1, 3, 2, extent(800, 600));
    res.swapchain.surface_format.format = 44;
    assert_eq!(build(res), Some(RendererError::PlanMismatch));
    let mut res = resources(1, 3, 2, extent(800, 600));
    res.swapchain.surface_format.color_space = 7;
    assert_eq!(build(res), Some(RendererError::PlanMismatch));
}

#[test]
fn frame_actions_carry_the_handles_of_slot_and_image() {
    let mut r = renderer(3, 2);
    assert_eq!(
        r.render(FrameEvent::Begin),
        FrameAction::WaitFence { fence: 300, timeout: TIMEOUT_NS }
    );
    assert_eq!(
        r.render(FrameEvent::Fence(Ok(()))),
        FrameAction::Acquire { swapchain: 10_001, semaphore: 100, timeout: TIMEOUT_NS }
    );
    assert_eq!(
        r.render(FrameEvent::Acquired(Ok((2, false)))),
        FrameAction::Draw(DrawPlan {
            slot: 0,
            image_index: 2,
            extent: extent(800, 600),
            uniform_buffer: 15_002,
            uniform_memory: 16_002,
            descriptor_set: 18_002,
            framebuffer: 13_002,
            command_buffer: 14_000,
            queue: 4,
            wait_semaphore: 100,
            wait_stage: STAGE_COLOR_ATTACHMENT_OUTPUT,
            signal_semaphore: 200,
            fence: 300,
        })
    );
    assert_eq!(
        r.render(FrameEvent::Submitted(Ok(()))),
        FrameAction::Present { queue: 4, swapchain: 10_001, wait_semaphore: 200, image_index: 2 }
    );
    assert_eq!(r.render(FrameEvent::Presented(Ok(false))), FrameAction::Done);
    assert_eq!(r.scheduler.current_frame, 1);
    assert!(r.is_well_formed());
}

#[test]
fn per_image_resources_follow_the_image_index_not_the_slot() {
    // Two frame slots, three images: the slot counter runs 0 1 0 1 0 1 while
    // the acquired indices run 0 1 2 0 1 2, and then out of order.
    let mut r = renderer(3, 2);
    let acquired = [0u32, 1, 2, 0, 1, 2, 2, 2, 0, 1];
    let mut diverged = false;
    let mut writes = vec![0u32; 3];
    for (n, image) in acquired.iter().enumerate() {
        let slot = n % 2;
        let plan = run_frame(&mut r, *image);
        let i = *image as u64;
        let f = slot as u64;
        diverged = diverged || i != f;
        assert_eq!(plan.slot, slot);
        assert_eq!(plan.image_index, *image);
        assert_eq!(plan.uniform_buffer, 15_000 + i);
        assert_eq!(plan.uniform_memory, 16_000 + i);
        assert_eq!(plan.descriptor_set, 18_000 + i);
        assert_eq!(plan.framebuffer, 13_000 + i);
        assert_eq!(plan.command_buffer, 14_000 + f);
        assert_eq!(plan.wait_semaphore, 100 + f);
        assert_eq!(plan.signal_semaphore, 200 + f);
        assert_eq!(plan.fence, 300 + f);
        // The uniform data of this frame lands in the memory of its image only.
        writes[(plan.uniform_memory - 16_000) as usize] += 1;
    }
    assert!(diverged);
    assert_eq!(writes, vec![3, 3, 4]);
}

#[test]
fn commands_are_recorded_against_the_plan() {
    let mut r = renderer(3, 2);
    let plan = run_frame(&mut r, 1);
    assert_eq!(
        r.record_commands(&plan),
        vec![
            Command::BeginRenderPass {
                render_pass: 10,
                framebuffer: 13_001,
                extent: extent(800, 600)
            },
            Command::BindPipeline { pipeline: 13 },
            Command::BindVertexBuffer { buffer: 20, offset: 0 },
            Command::BindIndexBuffer { buffer: 22, offset: 0 },
            Command::SetViewport { extent: extent(800, 600) },
            Command::SetScissor { extent: extent(800, 600) },
            Command::BindDescriptorSet { layout: 12, set: 18_001 },
            Command::DrawIndexed { index_count: 6, instance_count: 1 },
            Command::EndRenderPass,
        ]
    );
}

#[test]
fn suboptimal_acquisition_draws_nothing_and_recreates_before_acquiring_again() {
    let mut r = renderer(3, 2);
    r.render(FrameEvent::Begin);
    r.render(FrameEvent::Fence(Ok(())));
    assert_eq!(r.render(FrameEvent::Acquired(Ok((1, true)))), FrameAction::Recreate);
    assert_eq!(r.render(FrameEvent::Begin), FrameAction::Recreate);
    assert_eq!(r.render(FrameEvent::Acquired(Ok((1, false)))), FrameAction::Recreate);
    let plan = r.recreate_swapchain(&caps(2, 0, extent(1024, 768))).unwrap();
    assert_eq!(plan.swapchain.extent, extent(1024, 768));
    assert_eq!(r.render(FrameEvent::Begin), FrameAction::Rebuild);
    assert_eq!(r.install_swapchain(resources(2, 3, 2, extent(1024, 768))), Ok(()));
    assert_eq!(r.scheduler.current_frame, 0);
    // The first call after the recreation is the acquisition, on the new
    // swapchain.
    assert_eq!(
        r.render(FrameEvent::Begin),
        FrameAction::Acquire { swapchain: 20_001, semaphore: 100, timeout: TIMEOUT_NS }
    );
}

#[test]
fn resize_mid_frame_presents_the_old_extent_and_the_next_frame_sees_the_new() {
    let mut r = renderer(3, 2);
    r.render(FrameEvent::Begin);
    r.render(FrameEvent::Fence(Ok(())));
    let before = match r.render(FrameEvent::Acquired(Ok((1, false)))) {
        FrameAction::Draw(plan) => plan,
        other => panic!("no draw: {:?}", other),
    };
    assert_eq!(before.extent, extent(800, 600));
    r.notify_resized(extent(1024, 768));
    assert_eq!(r.drawable, extent(1024, 768));
    assert!(r.is_well_formed());
    // The frame under way is presented on the swapchain it was drawn for.
    assert_eq!(
        r.render(FrameEvent::Submitted(Ok(()))),
        FrameAction::Present { queue: 4, swapchain: 10_001, wait_semaphore: 200, image_index: 1 }
    );
    assert_eq!(
        r.resources.as_ref().unwrap().swapchain.surface_extent,
        extent(800, 600)
    );
    assert_eq!(r.render(FrameEvent::Presented(Ok(false))), FrameAction::Recreate);
    let plan = r
        .recreate_swapchain(&caps(2, 0, extent(EXTENT_UNDEFINED, EXTENT_UNDEFINED)))
        .unwrap();
    assert_eq!(plan.swapchain.extent, extent(1024, 768));
    assert_eq!(r.install_swapchain(resources(2, 3, 2, plan.swapchain.extent)), Ok(()));
    assert_eq!(r.scheduler.current_frame, 1);
    let after = run_frame(&mut r, 0);
    assert_eq!(after.extent, extent(1024, 768));
    assert_eq!(after.slot, 1);
    assert_eq!(after.framebuffer, 23_000);
}

#[test]
fn recreation_plan_tears_down_and_negotiates_anew() {
    let mut r = renderer(3, 2);
    r.notify_resized(extent(5000, 10));
    let plan = r
        .recreate_swapchain(&caps(3, 4, extent(EXTENT_UNDEFINED, EXTENT_UNDEFINED)))
        .unwrap();
    let mut expected = vec![DestroyOp::WaitIdle];
    expected.extend(size_dependent_ops(1, 3, 2));
    assert_eq!(plan.teardown, expected);
    assert_eq!(
        plan.swapchain,
        SwapchainPlan {
            format: format(),
            present_mode: 2,
            extent: extent(4096, 10),
            image_count: 4,
            pre_transform: 1,
        }
    );
    assert_eq!(r.resources, None);
    assert_eq!(r.image_count(), 0);
    assert_eq!(r.scheduler.phase, Phase::Rebuilding { advance: false });
    // The resize that was noted stays noted: only a frame takes it up.
    assert!(r.scheduler.should_recreate_swapchain);
    assert_eq!(r.scheduler.current_frame, 0);
    assert!(r.is_well_formed());
    // Asked again before the new swapchain stands, nothing is left to tear down.
    let again = r.recreate_swapchain(&caps(3, 4, extent(640, 480))).unwrap();
    assert_eq!(again.teardown, Vec::new());
    assert_eq!(again.swapchain.extent, extent(640, 480));
}

#[test]
fn recreation_keeps_counts_equal_cycle_after_cycle() {
    let mut r = renderer(3, 2);
    for (generation, images) in [(2u64, 4u64), (3, 2), (4, 5), (5, 3)] {
        run_frame(&mut r, 0);
        r.recreate_swapchain(&caps(images as u32 - 1, 0, extent(640, 480))).unwrap();
        assert_eq!(r.install_swapchain(resources(generation, images, 2, extent(640, 480))), Ok(()));
        let res = r.resources.as_ref().unwrap();
        let n = images as usize;
        assert_eq!(res.swapchain.image_count as u64, images);
        assert_eq!(res.swapchain.images.len(), n);
        assert_eq!(res.swapchain.image_views.len(), n);
        assert_eq!(res.swapchain.framebuffers.len(), n);
        assert_eq!(res.per_image.uniform_buffers.len(), n);
        assert_eq!(res.per_image.uniform_buffers_mem.len(), n);
        assert_eq!(res.per_image.descriptor_sets.len(), n);
        assert_eq!(res.command_buffers.len(), 2);
        assert_eq!(r.image_count() as u64, images);
        assert!(r.is_well_formed());
        assert_eq!(r.scheduler.phase, Phase::Ready);
    }
}

#[test]
fn install_refuses_what_does_not_fit_and_changes_nothing() {
    let mut r = renderer(3, 2);
    assert_eq!(
        r.install_swapchain(resources(2, 3, 2, extent(640, 480))),
        Err(InstallError::NotRebuilding)
    );
    assert_eq!(r.resources, Some(resources(1, 3, 2, extent(800, 600))));
    r.recreate_swapchain(&caps(2, 0, extent(640, 480))).unwrap();
    let mut bad = resources(2, 3, 2, extent(640, 480));
    bad.per_image.descriptor_sets.pop();
    assert_eq!(r.install_swapchain(bad), Err(InstallError::CountMismatch));
    assert_eq!(
        r.install_swapchain(resources(2, 3, 1, extent(640, 480))),
        Err(InstallError::CountMismatch)
    );
    // What is handed over must be what was negotiated: three images of
    // 640 by 480.
    assert_eq!(
        r.install_swapchain(resources(2, 3, 2, extent(800, 600))),
        Err(InstallError::PlanMismatch)
    );
    assert_eq!(
        r.install_swapchain(resources(2, 2, 2, extent(640, 480))),
        Err(InstallError::PlanMismatch)
    );
    assert_eq!(r.resources, None);
    assert_eq!(r.scheduler.phase, Phase::Rebuilding { advance: false });
    assert_eq!(r.render(FrameEvent::Begin), FrameAction::Rebuild);
    assert_eq!(r.install_swapchain(resources(2, 3, 2, extent(640, 480))), Ok(()));
    assert_eq!(r.scheduler.phase, Phase::Ready);
    assert_eq!(r.negotiated, plan(3, extent(640, 480)));
}

#[test]
fn recreation_is_refused_after_failure_and_after_teardown() {
    let mut r = renderer(3, 2);
    r.render(FrameEvent::Begin);
    let failure =
        RenderFailure { kind: ErrorKind::DeviceLost, stage: Stage::FenceWait, handle: 300 };
    assert_eq!(r.render(FrameEvent::Fence(Err(ERROR_DEVICE_LOST))), FrameAction::Fail(failure));
    assert_eq!(r.render(FrameEvent::Begin), FrameAction::Fail(failure));
    assert_eq!(
        r.recreate_swapchain(&caps(2, 0, extent(640, 480))).err(),
        Some(RecreateError::Unrecoverable)
    );
    assert_eq!(r.resources, Some(resources(1, 3, 2, extent(800, 600))));
    r.teardown_all();
    assert_eq!(
        r.recreate_swapchain(&caps(2, 0, extent(640, 480))).err(),
        Some(RecreateError::Unrecoverable)
    );
    let mut r = renderer(3, 2);
    assert_eq!(
        r.recreate_swapchain(&caps(u32::MAX, 0, extent(640, 480))).err(),
        Some(RecreateError::ImageCountOverflow)
    );
    assert_eq!(r.scheduler.phase, Phase::Ready);
    assert_eq!(r.resources, Some(resources(1, 3, 2, extent(800, 600))));
}

#[test]
fn failures_name_the_object_they_befell() {
    let mut r = renderer(3, 2);
    r.render(FrameEvent::Begin);
    r.render(FrameEvent::Fence(Ok(())));
    assert_eq!(
        r.render(FrameEvent::Acquired(Err(ERROR_DEVICE_LOST))),
        FrameAction::Fail(RenderFailure {
            kind: ErrorKind::DeviceLost,
            stage: Stage::Acquire,
            handle: 10_001
        })
    );
    let mut r = renderer(3, 2);
    r.render(FrameEvent::Begin);
    r.render(FrameEvent::Fence(Ok(())));
    r.render(FrameEvent::Acquired(Ok((0, false))));
    assert_eq!(
        r.render(FrameEvent::Submitted(Err(-2))),
        FrameAction::Fail(RenderFailure {
            kind: ErrorKind::ResourceExhaustion,
            stage: Stage::Submit,
            handle: 4
        })
    );
}

#[test]
fn stale_presentation_never_surfaces_as_a_failure() {
    for outcome in [Ok(true), Err(ERROR_OUT_OF_DATE)] {
        let mut r = renderer(3, 2);
        r.render(FrameEvent::Begin);
        r.render(FrameEvent::Fence(Ok(())));
        r.render(FrameEvent::Acquired(Ok((0, false))));
        r.render(FrameEvent::Submitted(Ok(())));
        assert_eq!(r.render(FrameEvent::Presented(outcome)), FrameAction::Recreate);
    }
}

#[test]
fn swapchain_teardown_goes_against_the_dependencies() {
    let mut r = renderer(3, 2);
    run_frame(&mut r, 0);
    let ops = r.teardown_swapchain_dependent();
    let mut expected = vec![DestroyOp::WaitIdle];
    expected.extend(size_dependent_ops(1, 3, 2));
    assert_eq!(ops, expected);
    assert_eq!(r.resources, None);
    assert_eq!(r.scheduler.phase, Phase::Rebuilding { advance: false });
    assert_eq!(r.scheduler.slots, vec![SlotState::Idle, SlotState::Idle]);
    assert!(r.is_well_formed());
    // Nothing is left of it: a second teardown has nothing to do.
    assert_eq!(r.teardown_swapchain_dependent(), Vec::new());
}

#[test]
fn full_teardown_destroys_everything_in_order() {
    let mut r = renderer(3, 2);
    run_frame(&mut r, 0);
    let ops = r.teardown_all();
    let mut expected = vec![DestroyOp::WaitIdle];
    expected.extend(size_dependent_ops(1, 3, 2));
    expected.extend(device_ops(2));
    assert_eq!(ops, expected);
    assert_eq!(ops[0], DestroyOp::WaitIdle);
    let n = ops.len();
    assert_eq!(ops[n - 3], destroy(ResourceKind::Surface, 3));
    assert_eq!(ops[n - 2], destroy(ResourceKind::Device, 2));
    assert_eq!(ops[n - 1], destroy(ResourceKind::Instance, 1));
    // What is built from an object goes before the object.
    let before = |a: ResourceKind, b: ResourceKind| position(&ops, a).1 < position(&ops, b).0;
    assert!(before(ResourceKind::Framebuffer, ResourceKind::ImageView));
    assert!(before(ResourceKind::Framebuffer, ResourceKind::RenderPass));
    assert!(before(ResourceKind::CommandBuffer, ResourceKind::CommandPool));
    assert!(before(ResourceKind::ImageView, ResourceKind::Swapchain));
    assert!(before(ResourceKind::Swapchain, ResourceKind::Surface));
    assert!(before(ResourceKind::UniformBuffer, ResourceKind::UniformMemory));
    assert!(before(ResourceKind::TextureImage, ResourceKind::TextureMemory));
    assert!(before(ResourceKind::Pipeline, ResourceKind::PipelineLayout));
    assert!(before(ResourceKind::Pipeline, ResourceKind::RenderPass));
    assert!(before(ResourceKind::PipelineLayout, ResourceKind::DescriptorSetLayout));
    assert!(before(ResourceKind::Fence, ResourceKind::Device));
    assert!(before(ResourceKind::Device, ResourceKind::Instance));
    assert_eq!(r.scheduler.phase, Phase::TornDown);
    assert_eq!(r.resources, None);
    assert!(r.is_well_formed());
}

#[test]
fn full_teardown_twice_destroys_nothing_twice() {
    let mut r = renderer(3, 2);
    run_frame(&mut r, 1);
    let first = r.teardown_all();
    assert_eq!(first.len(), 1 + 3 + 2 + 3 + 1 + 3 + 3 + 1 + 11 + 6 + 4);
    let second = r.teardown_all();
    assert_eq!(second, Vec::new());
    assert_eq!(r.teardown_swapchain_dependent(), Vec::new());
    assert_eq!(r.teardown_all(), Vec::new());
    assert_eq!(r.scheduler.phase, Phase::TornDown);
    assert_eq!(r.render(FrameEvent::Begin), FrameAction::Stopped);
    assert!(r.is_well_formed());
    // No handle occurs twice in the one teardown that did something.
    let mut handles: Vec<(ResourceKind, u64)> = Vec::new();
    for op in first {
        if let DestroyOp::Destroy { kind, handle } = op {
            assert!(!handles.contains(&(kind, handle)));
            handles.push((kind, handle));
        }
    }
}

#[test]
fn full_teardown_after_swapchain_teardown_destroys_the_rest() {
    let mut r = renderer(2, 3);
    r.teardown_swapchain_dependent();
    let ops = r.teardown_all();
    let mut expected = vec![DestroyOp::WaitIdle];
    expected.extend(device_ops(3));
    assert_eq!(ops, expected);
}

#[test]
fn full_teardown_skips_what_was_never_created() {
    let mut r = Renderer::new(
        DeviceHandles { debug_messenger: None, ..device() },
        pipeline(),
        MeshHandles { texture_image: None, texture_image_mem: None, ..mesh() },
        sync(1),
        plan(2, extent(800, 600)),
        resources(1, 2, 1, extent(800, 600)),
        extent(800, 600),
        u64::MAX,
    )
    .unwrap();
    let ops = r.teardown_all();
    assert!(!ops.iter().any(|op| matches!(
        op,
        DestroyOp::Destroy { kind: ResourceKind::DebugMessenger, .. }
            | DestroyOp::Destroy { kind: ResourceKind::TextureImage, .. }
            | DestroyOp::Destroy { kind: ResourceKind::TextureMemory, .. }
    )));
    assert_eq!(ops.len(), 1 + 2 + 1 + 2 + 1 + 2 + 2 + 1 + 9 + 3 + 3);
}

#[test]
fn well_formedness_is_checked_on_the_whole_renderer() {
    let mut r = renderer(3, 2);
    assert!(r.is_well_formed());
    r.sync.pop();
    assert!(!r.is_well_formed());
    let mut r = renderer(3, 2);
    r.resources = None;
    assert!(!r.is_well_formed());
    let mut r = renderer(3, 2);
    r.scheduler.phase = Phase::AwaitPresent { image: 3 };
    r.scheduler.slots[0] = SlotState::Submitted;
    assert!(!r.is_well_formed());
    r.scheduler.phase = Phase::AwaitPresent { image: 2 };
    assert!(r.is_well_formed());
}

#[test]
fn recreation_leaves_everything_but_the_size_dependent_resources() {
    let mut r = renderer(3, 2);
    run_frame(&mut r, 0);
    r.notify_resized(extent(1024, 768));
    let frame = r.scheduler.current_frame;
    r.recreate_swapchain(&caps(2, 0, extent(1024, 768))).unwrap();
    assert_eq!(r.device, device());
    assert_eq!(r.pipeline, pipeline());
    assert_eq!(r.mesh, mesh());
    assert_eq!(r.sync, sync(2));
    assert_eq!(r.negotiated.format, format());
    assert_eq!(r.negotiated.present_mode, 2);
    assert_eq!(r.scheduler.frames_in_flight, 2);
    assert_eq!(r.scheduler.current_frame, frame);
    assert!(r.scheduler.should_recreate_swapchain);
    assert_eq!(r.install_swapchain(resources(2, 3, 2, extent(1024, 768))), Ok(()));
    assert!(r.scheduler.should_recreate_swapchain);
    // The flag is taken up at the end of the next frame.
    let mut action = r.render(FrameEvent::Begin);
    if let FrameAction::WaitFence { .. } = action {
        action = r.render(FrameEvent::Fence(Ok(())));
    }
    assert!(matches!(action, FrameAction::Acquire { .. }));
    r.render(FrameEvent::Acquired(Ok((0, false))));
    r.render(FrameEvent::Submitted(Ok(())));
    assert_eq!(r.render(FrameEvent::Presented(Ok(false))), FrameAction::Recreate);
    assert!(!r.scheduler.should_recreate_swapchain);
}

#[test]
fn swapchain_teardown_leaves_the_resize_flag_alone() {
    let mut r = renderer(3, 2);
    r.notify_resized(extent(640, 480));
    r.teardown_swapchain_dependent();
    assert!(r.scheduler.should_recreate_swapchain);
    let mut r = renderer(3, 2);
    r.teardown_swapchain_dependent();
    assert!(!r.scheduler.should_recreate_swapchain);
}

#[test]
fn failed_rebuild_ends_rendering_with_a_typed_failure() {
    let mut r = renderer(3, 2);
    run_frame(&mut r, 0);
    r.recreate_swapchain(&caps(2, 0, extent(640, 480))).unwrap();
    let failure = RenderFailure {
        kind: ErrorKind::ResourceExhaustion,
        stage: Stage::Rebuild,
        handle: 3,
    };
    assert_eq!(r.rebuild_failed(ERROR_OUT_OF_DEVICE_MEMORY), Some(failure));
    assert_eq!(r.resources, None);
    assert!(r.is_well_formed());
    assert_eq!(r.render(FrameEvent::Begin), FrameAction::Fail(failure));
    assert_eq!(
        r.install_swapchain(resources(2, 3, 2, extent(640, 480))),
        Err(InstallError::NotRebuilding)
    );
    assert_eq!(
        r.recreate_swapchain(&caps(2, 0, extent(640, 480))).err(),
        Some(RecreateError::Unrecoverable)
    );
    // What is still alive is destroyed once, and nothing of the swapchain.
    let mut expected = vec![DestroyOp::WaitIdle];
    expected.extend(device_ops(2));
    assert_eq!(r.teardown_all(), expected);
    assert_eq!(r.teardown_all(), Vec::new());
}

#[test]
fn failed_rebuild_is_classified_by_its_code() {
    let mut r = renderer(3, 2);
    r.recreate_swapchain(&caps(2, 0, extent(640, 480))).unwrap();
    assert_eq!(
        r.rebuild_failed(ERROR_DEVICE_LOST),
        Some(RenderFailure { kind: ErrorKind::DeviceLost, stage: Stage::Rebuild, handle: 3 })
    );
    assert_eq!(r.rebuild_failed(ERROR_DEVICE_LOST), None);
}

#[test]
fn rebuild_failure_outside_a_rebuild_changes_nothing() {
    let mut r = renderer(3, 2);
    assert_eq!(r.rebuild_failed(ERROR_OUT_OF_DEVICE_MEMORY), None);
    assert_eq!(r.scheduler.phase, Phase::Ready);
    assert_eq!(r.resources, Some(resources(1, 3, 2, extent(800, 600))));
    run_frame(&mut r, 1);
    r.teardown_all();
    assert_eq!(r.rebuild_failed(ERROR_OUT_OF_DEVICE_MEMORY), None);
    assert_eq!(r.scheduler.phase, Phase::TornDown);
}

#[test]
fn half_built_resources_are_discarded_in_teardown_order() {
    let mut partial = resources(2, 3, 2, extent(640, 480));
    partial.swapchain.framebuffers.truncate(1);
    partial.command_buffers.clear();
    partial.per_image.uniform_buffers.clear();
    partial.per_image.uniform_buffers_mem.clear();
    partial.per_image.descriptor_pool = None;
    partial.per_image.descriptor_sets.clear();
    assert!(!fits(&partial, 2));
    assert!(matches_plan(&partial, &plan(3, extent(640, 480))));
    assert_eq!(
        discard(&partial),
        vec![
            destroy(ResourceKind::Framebuffer, 23_000),
            destroy(ResourceKind::ImageView, 22_000),
            destroy(ResourceKind::ImageView, 22_001),
            destroy(ResourceKind::ImageView, 22_002),
            destroy(ResourceKind::Swapchain, 20_001),
        ]
    );
    assert_eq!(discard(&resources(1, 3, 2, extent(800, 600))), size_dependent_ops(1, 3, 2));
}
