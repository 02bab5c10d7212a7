//! Teardown and recreation: which objects of the renderer are destroyed,
//! in which order, and what the swapchain is rebuilt with.

use crate::frame::{
    rebuild_failure, rebuilt, torn_down, FrameError, Phase, SchedulerState, Stage,
};
use crate::lifetime::{
    depth, destroy_each, destroy_some, lemma_destroy_each_ordered, lemma_destroy_some_ordered,
    lemma_join_ordered, ordered, push_each, push_some, ranks_between, DestroyOp, ResourceKind,
};
use crate::renderer::{
    fits, matches_plan, resources_fit, resources_match, same_device_objects, DeviceHandles,
    FrameSync, InstallError, MeshHandles, PipelineHandles, RecreateError, RecreatePlan,
    RenderFailure, Renderer, SwapchainResources,
};
use crate::status::{frame_failure, frame_failure_of};
use crate::swapchain::{
    capabilities_valid, choose_extent, choose_image_count, extent_within,
    lemma_negotiated_extent_in_bounds, negotiated_extent, negotiated_image_count,
    SurfaceCapabilities, SwapchainPlan, EXTENT_UNDEFINED,
};
use vstd::prelude::*;

verus! {

/// The destruction of one object.
pub open spec fn destroy_one(kind: ResourceKind, handle: u64) -> Seq<DestroyOp> {
    seq![DestroyOp::Destroy { kind, handle }]
}

/// The image-available semaphores of the frame slots, in slot order.
pub open spec fn image_available_of(sync: Seq<FrameSync>) -> Seq<u64> {
    Seq::new(sync.len(), |i: int| sync[i].image_available)
}

/// The render-finished semaphores of the frame slots, in slot order.
pub open spec fn render_finished_of(sync: Seq<FrameSync>) -> Seq<u64> {
    Seq::new(sync.len(), |i: int| sync[i].render_finished)
}

/// The fences of the frame slots, in slot order.
pub open spec fn fences_of(sync: Seq<FrameSync>) -> Seq<u64> {
    Seq::new(sync.len(), |i: int| sync[i].fence)
}

/// The destruction of everything that depends on the size of the window:
/// framebuffers, command buffers, image views, the swapchain, then the
/// uniform buffers, their memory and the descriptor pool.
pub open spec fn size_dependent_ops(res: SwapchainResources) -> Seq<DestroyOp> {
    destroy_each(ResourceKind::Framebuffer, res.swapchain.framebuffers@) + destroy_each(
        ResourceKind::CommandBuffer,
        res.command_buffers@,
    ) + destroy_each(ResourceKind::ImageView, res.swapchain.image_views@) + destroy_one(
        ResourceKind::Swapchain,
        res.swapchain.swapchain,
    ) + destroy_each(ResourceKind::UniformBuffer, res.per_image.uniform_buffers@) + destroy_each(
        ResourceKind::UniformMemory,
        res.per_image.uniform_buffers_mem@,
    ) + destroy_some(ResourceKind::DescriptorPool, res.per_image.descriptor_pool)
}

/// The destruction of the pipeline and what it was built from: pipeline,
/// pipeline layout, render pass, descriptor-set layout.
pub open spec fn pipeline_ops(pipeline: PipelineHandles) -> Seq<DestroyOp> {
    destroy_one(ResourceKind::Pipeline, pipeline.graphics_pipeline) + destroy_one(
        ResourceKind::PipelineLayout,
        pipeline.pipeline_layout,
    ) + destroy_one(ResourceKind::RenderPass, pipeline.render_pass) + destroy_one(
        ResourceKind::DescriptorSetLayout,
        pipeline.descriptor_set_layout,
    )
}

/// The destruction of the mesh buffers and of the texture, each before its
/// memory.
pub open spec fn mesh_ops(mesh: MeshHandles) -> Seq<DestroyOp> {
    destroy_one(ResourceKind::VertexBuffer, mesh.vertex_buffer) + destroy_one(
        ResourceKind::VertexMemory,
        mesh.vertex_buffer_mem,
    ) + destroy_one(ResourceKind::IndexBuffer, mesh.index_buffer) + destroy_one(
        ResourceKind::IndexMemory,
        mesh.index_buffer_mem,
    ) + destroy_some(ResourceKind::TextureImage, mesh.texture_image) + destroy_some(
        ResourceKind::TextureMemory,
        mesh.texture_image_mem,
    )
}

/// The destruction of the synchronization objects of every slot: the
/// image-available semaphores, the render-finished semaphores, the fences.
pub open spec fn sync_ops(sync: Seq<FrameSync>) -> Seq<DestroyOp> {
    destroy_each(ResourceKind::ImageAvailableSemaphore, image_available_of(sync)) + destroy_each(
        ResourceKind::RenderFinishedSemaphore,
        render_finished_of(sync),
    ) + destroy_each(ResourceKind::Fence, fences_of(sync))
}

/// The destruction of what everything else was made from: the debug
/// messenger, then the surface, the device and the instance.
pub open spec fn instance_ops(device: DeviceHandles) -> Seq<DestroyOp> {
    destroy_some(ResourceKind::DebugMessenger, device.debug_messenger) + destroy_one(
        ResourceKind::Surface,
        device.surface,
    ) + destroy_one(ResourceKind::Device, device.device) + destroy_one(
        ResourceKind::Instance,
        device.instance,
    )
}

/// The destruction of everything that outlives a swapchain: the pipeline
/// and what it was built from, the mesh and the texture, the command pool,
/// the synchronization objects, and last the debug messenger, the surface,
/// the device and the instance.
pub open spec fn device_ops(r: Renderer) -> Seq<DestroyOp> {
    pipeline_ops(r.pipeline) + mesh_ops(r.mesh) + destroy_one(
        ResourceKind::CommandPool,
        r.device.command_pool,
    ) + sync_ops(r.sync@) + instance_ops(r.device)
}

/// The teardown of what depends on the size of the window: nothing where
/// nothing is left of it; else the wait for the idle device, then the
/// destructions.
pub open spec fn swapchain_teardown(r: Renderer) -> Seq<DestroyOp> {
    match r.resources {
        Some(res) => seq![DestroyOp::WaitIdle] + size_dependent_ops(res),
        None => Seq::empty(),
    }
}

/// The size-dependent destructions of a full teardown.
pub open spec fn remaining_size_dependent_ops(r: Renderer) -> Seq<DestroyOp> {
    match r.resources {
        Some(res) => size_dependent_ops(res),
        None => Seq::empty(),
    }
}

/// The teardown of everything: nothing where everything is destroyed
/// already; else the wait for the idle device, what is left of the
/// size-dependent objects, and then the objects that outlive a swapchain.
pub open spec fn full_teardown(r: Renderer) -> Seq<DestroyOp> {
    if r.scheduler.phase == Phase::TornDown {
        Seq::empty()
    } else {
        seq![DestroyOp::WaitIdle] + remaining_size_dependent_ops(r) + device_ops(r)
    }
}

/// What a recreation asks the new swapchain to be created with: format and
/// present mode as they were negotiated at the start, extent and image
/// count negotiated anew.
pub open spec fn recreation_plan(r: Renderer, caps: SurfaceCapabilities) -> SwapchainPlan {
    SwapchainPlan {
        format: r.negotiated.format,
        present_mode: r.negotiated.present_mode,
        extent: negotiated_extent(caps, r.drawable),
        image_count: negotiated_image_count(caps) as u32,
        pre_transform: caps.current_transform,
    }
}

fn push_one(ops: &mut Vec<DestroyOp>, kind: ResourceKind, handle: u64)
    ensures
        final(ops)@ == old(ops)@ + destroy_one(kind, handle),
{
    ops.push(DestroyOp::Destroy { kind, handle });
    assert(ops@ =~= old(ops)@ + destroy_one(kind, handle));
}

fn push_size_dependent(ops: &mut Vec<DestroyOp>, res: &SwapchainResources)
    ensures
        final(ops)@ == old(ops)@ + size_dependent_ops(*res),
{
    let ghost before = ops@;
    push_each(ops, ResourceKind::Framebuffer, &res.swapchain.framebuffers);
    push_each(ops, ResourceKind::CommandBuffer, &res.command_buffers);
    push_each(ops, ResourceKind::ImageView, &res.swapchain.image_views);
    push_one(ops, ResourceKind::Swapchain, res.swapchain.swapchain);
    push_each(ops, ResourceKind::UniformBuffer, &res.per_image.uniform_buffers);
    push_each(ops, ResourceKind::UniformMemory, &res.per_image.uniform_buffers_mem);
    push_some(ops, ResourceKind::DescriptorPool, res.per_image.descriptor_pool);
    assert(ops@ =~= before + size_dependent_ops(*res));
}

fn push_sync(ops: &mut Vec<DestroyOp>, sync: &Vec<FrameSync>)
    ensures
        final(ops)@ == old(ops)@ + sync_ops(sync@),
{
    let ghost before = ops@;
    let mut available: Vec<u64> = Vec::new();
    let mut finished: Vec<u64> = Vec::new();
    let mut fences: Vec<u64> = Vec::new();
    let mut i: usize = 0;
    while i < sync.len()
        invariant
            0 <= i <= sync.len(),
            available@ == image_available_of(sync@.take(i as int)),
            finished@ == render_finished_of(sync@.take(i as int)),
            fences@ == fences_of(sync@.take(i as int)),
        decreases sync.len() - i,
    {
        available.push(sync[i].image_available);
        finished.push(sync[i].render_finished);
        fences.push(sync[i].fence);
        i += 1;
        assert(available@ =~= image_available_of(sync@.take(i as int)));
        assert(finished@ =~= render_finished_of(sync@.take(i as int)));
        assert(fences@ =~= fences_of(sync@.take(i as int)));
    }
    assert(sync@.take(sync.len() as int) =~= sync@);
    push_each(ops, ResourceKind::ImageAvailableSemaphore, &available);
    push_each(ops, ResourceKind::RenderFinishedSemaphore, &finished);
    push_each(ops, ResourceKind::Fence, &fences);
    assert(ops@ =~= before + sync_ops(sync@));
}

fn push_pipeline(ops: &mut Vec<DestroyOp>, pipeline: &PipelineHandles)
    ensures
        final(ops)@ == old(ops)@ + pipeline_ops(*pipeline),
{
    let ghost before = ops@;
    push_one(ops, ResourceKind::Pipeline, pipeline.graphics_pipeline);
    push_one(ops, ResourceKind::PipelineLayout, pipeline.pipeline_layout);
    push_one(ops, ResourceKind::RenderPass, pipeline.render_pass);
    push_one(ops, ResourceKind::DescriptorSetLayout, pipeline.descriptor_set_layout);
    assert(ops@ =~= before + pipeline_ops(*pipeline));
}

fn push_mesh(ops: &mut Vec<DestroyOp>, mesh: &MeshHandles)
    ensures
        final(ops)@ == old(ops)@ + mesh_ops(*mesh),
{
    let ghost before = ops@;
    push_one(ops, ResourceKind::VertexBuffer, mesh.vertex_buffer);
    push_one(ops, ResourceKind::VertexMemory, mesh.vertex_buffer_mem);
    push_one(ops, ResourceKind::IndexBuffer, mesh.index_buffer);
    push_one(ops, ResourceKind::IndexMemory, mesh.index_buffer_mem);
    push_some(ops, ResourceKind::TextureImage, mesh.texture_image);
    push_some(ops, ResourceKind::TextureMemory, mesh.texture_image_mem);
    assert(ops@ =~= before + mesh_ops(*mesh));
}

fn push_instance(ops: &mut Vec<DestroyOp>, device: &DeviceHandles)
    ensures
        final(ops)@ == old(ops)@ + instance_ops(*device),
{
    let ghost before = ops@;
    push_some(ops, ResourceKind::DebugMessenger, device.debug_messenger);
    push_one(ops, ResourceKind::Surface, device.surface);
    push_one(ops, ResourceKind::Device, device.device);
    push_one(ops, ResourceKind::Instance, device.instance);
    assert(ops@ =~= before + instance_ops(*device));
}

/// The destruction of size-dependent resources that no renderer holds, such
/// as those of a rebuild that failed half way: the same objects in the same
/// order as a teardown destroys them.
pub fn discard(partial: &SwapchainResources) -> (ops: Vec<DestroyOp>)
    ensures
        ops@ == size_dependent_ops(*partial),
        ordered(ops@),
{
    let mut ops: Vec<DestroyOp> = Vec::new();
    push_size_dependent(&mut ops, partial);
    proof {
        lemma_size_dependent_ordered(*partial);
        assert(ops@ =~= size_dependent_ops(*partial));
    }
    ops
}

impl Renderer {
    /// Tears down what depends on the size of the window, and leaves the
    /// renderer waiting for a new swapchain.
    ///
    /// The operations are to be carried out in the order given. Where
    /// nothing is left to tear down there are none.
    pub fn teardown_swapchain_dependent(&mut self) -> (ops: Vec<DestroyOp>)
        requires
            old(self).wf(),
        ensures
            ops@ == swapchain_teardown(*old(self)),
            final(self).resources is None,
            final(self).scheduler@ == torn_down(old(self).scheduler@),
            final(self).scheduler.frames_in_flight == old(self).scheduler.frames_in_flight,
            final(self).scheduler.current_frame == old(self).scheduler.current_frame,
            final(self).scheduler.should_recreate_swapchain == old(
                self,
            ).scheduler.should_recreate_swapchain,
            final(self).negotiated == old(self).negotiated,
            same_device_objects(*old(self), *final(self)),
            final(self).wf(),
    {
        let mut ops: Vec<DestroyOp> = Vec::new();
        match &self.resources {
            Some(res) => {
                ops.push(DestroyOp::WaitIdle);
                push_size_dependent(&mut ops, res);
            },
            None => {},
        }
        assert(ops@ =~= swapchain_teardown(*self));
        self.resources = None;
        self.scheduler.swapchain_torn_down();
        ops
    }

    /// Begins the recreation of the swapchain: tears down what depends on
    /// the size of the window and negotiates extent and image count anew,
    /// from the surface's report and the drawable size last noted.
    ///
    /// The teardown of the plan is to be carried out first, in the order
    /// given; then the swapchain and what is built on it are created as the
    /// plan says and handed to `install_swapchain`, or the failure of their
    /// creation is reported to `rebuild_failed`. Nothing but the
    /// size-dependent resources, the plan and the phase changes: the frame
    /// counter and a resize that was noted stay as they are. Fails, and
    /// changes nothing, once rendering has failed or everything is
    /// destroyed, or when the image count cannot be counted.
    pub fn recreate_swapchain(&mut self, caps: &SurfaceCapabilities) -> (r: Result<
        RecreatePlan,
        RecreateError,
    >)
        requires
            old(self).wf(),
        ensures
            final(self).wf(),
            same_device_objects(*old(self), *final(self)),
            final(self).scheduler.frames_in_flight == old(self).scheduler.frames_in_flight,
            final(self).scheduler.current_frame == old(self).scheduler.current_frame,
            final(self).scheduler.should_recreate_swapchain == old(
                self,
            ).scheduler.should_recreate_swapchain,
            match r {
                Ok(plan) => {
                    &&& !(old(self).scheduler.phase is Failed)
                    &&& !(old(self).scheduler.phase is TornDown)
                    &&& negotiated_image_count(*caps) <= u32::MAX
                    &&& plan.teardown@ == swapchain_teardown(*old(self))
                    &&& plan.swapchain == recreation_plan(*old(self), *caps)
                    &&& final(self).negotiated == plan.swapchain
                    &&& final(self).resources is None
                    &&& final(self).scheduler@ == torn_down(old(self).scheduler@)
                    &&& final(self).scheduler.phase is Rebuilding
                },
                Err(e) => {
                    &&& e == if old(self).scheduler.phase is Failed || old(self).scheduler.phase
                        is TornDown {
                        RecreateError::Unrecoverable
                    } else {
                        RecreateError::ImageCountOverflow
                    }
                    &&& e == RecreateError::ImageCountOverflow ==> negotiated_image_count(*caps)
                        > u32::MAX
                    &&& final(self).resources == old(self).resources
                    &&& final(self).negotiated == old(self).negotiated
                    &&& final(self).scheduler@ == old(self).scheduler@
                },
            },
    {
        match self.scheduler.phase {
            Phase::Failed(_) => {
                return Err(RecreateError::Unrecoverable);
            },
            Phase::TornDown => {
                return Err(RecreateError::Unrecoverable);
            },
            _ => {},
        }
        let image_count = match choose_image_count(caps) {
            Some(n) => n,
            None => {
                return Err(RecreateError::ImageCountOverflow);
            },
        };
        let swapchain = SwapchainPlan {
            format: self.negotiated.format,
            present_mode: self.negotiated.present_mode,
            extent: choose_extent(caps, self.drawable),
            image_count,
            pre_transform: caps.current_transform,
        };
        let teardown = self.teardown_swapchain_dependent();
        self.negotiated = swapchain;
        Ok(RecreatePlan { teardown, swapchain })
    }

    /// Takes the new swapchain and what was built on it, and makes the
    /// renderer ready for the next frame.
    ///
    /// Fails, and changes nothing, unless the renderer waits for a
    /// swapchain, the resources agree in number with each other and with
    /// the frame slots, and the swapchain is the one negotiated last. After
    /// success the counts of images, views, framebuffers, uniform buffers
    /// and descriptor sets are all equal to the image count of the new
    /// swapchain, which is no less than the count negotiated, and the
    /// extent is the one negotiated.
    pub fn install_swapchain(&mut self, built: SwapchainResources) -> (r: Result<
        (),
        InstallError,
    >)
        requires
            old(self).wf(),
        ensures
            final(self).wf(),
            same_device_objects(*old(self), *final(self)),
            final(self).scheduler.frames_in_flight == old(self).scheduler.frames_in_flight,
            final(self).negotiated == old(self).negotiated,
            r is Ok <==> old(self).scheduler.phase is Rebuilding && resources_fit(
                built,
                old(self).sync.len() as nat,
            ) && resources_match(built, old(self).negotiated),
            r is Err ==> {
                &&& r->Err_0 == if !(old(self).scheduler.phase is Rebuilding) {
                    InstallError::NotRebuilding
                } else if !resources_fit(built, old(self).sync.len() as nat) {
                    InstallError::CountMismatch
                } else {
                    InstallError::PlanMismatch
                }
                &&& final(self).resources == old(self).resources
                &&& final(self).scheduler@ == old(self).scheduler@
            },
            r is Ok ==> {
                &&& final(self).resources == Some(built)
                &&& final(self).scheduler@ == rebuilt(old(self).scheduler@)
                &&& final(self).scheduler.phase == Phase::Ready
                &&& built.swapchain.images.len() == built.swapchain.image_count
                &&& built.swapchain.image_views.len() == built.swapchain.image_count
                &&& built.swapchain.framebuffers.len() == built.swapchain.image_count
                &&& built.per_image.uniform_buffers.len() == built.swapchain.image_count
                &&& built.per_image.descriptor_sets.len() == built.swapchain.image_count
                &&& built.swapchain.image_count >= old(self).negotiated.image_count
                &&& built.swapchain.surface_extent == old(self).negotiated.extent
            },
    {
        match self.scheduler.phase {
            Phase::Rebuilding { .. } => {},
            _ => {
                return Err(InstallError::NotRebuilding);
            },
        }
        if !fits(&built, self.sync.len()) {
            return Err(InstallError::CountMismatch);
        }
        if !matches_plan(&built, &self.negotiated) {
            return Err(InstallError::PlanMismatch);
        }
        self.resources = Some(built);
        self.scheduler.swapchain_rebuilt();
        Ok(())
    }

    /// Notes that a creation call of the rebuild has failed with the result
    /// code `code`, and ends rendering.
    ///
    /// The failure comes back exactly when the renderer was waiting for a
    /// swapchain: it is of the class of the code, at the rebuild, and names
    /// the surface. No size-dependent resource is held then, so that what
    /// was created before the failure is the caller's to give up, in the
    /// order that `discard` says. In any other phase nothing changes.
    pub fn rebuild_failed(&mut self, code: i32) -> (r: Option<RenderFailure>)
        requires
            old(self).wf(),
        ensures
            final(self).wf(),
            same_device_objects(*old(self), *final(self)),
            final(self).resources == old(self).resources,
            final(self).negotiated == old(self).negotiated,
            final(self).scheduler.frames_in_flight == old(self).scheduler.frames_in_flight,
            final(self).scheduler@ == rebuild_failure(
                old(self).scheduler@,
                frame_failure_of(code),
            ),
            r is Some <==> old(self).scheduler.phase is Rebuilding,
            r is Some ==> {
                &&& r.unwrap() == RenderFailure {
                    kind: frame_failure_of(code),
                    stage: Stage::Rebuild,
                    handle: old(self).device.surface,
                }
                &&& final(self).resources is None
                &&& final(self).scheduler.phase == Phase::Failed(
                    FrameError {
                        kind: frame_failure_of(code),
                        stage: Stage::Rebuild,
                        slot: old(self).scheduler.current_frame,
                    },
                )
            },
    {
        match self.scheduler.rebuild_failed(frame_failure(code)) {
            Some(e) => Some(
                RenderFailure { kind: e.kind, stage: e.stage, handle: self.device.surface },
            ),
            None => None,
        }
    }

    /// Tears everything down, and leaves the renderer with nothing.
    ///
    /// The operations are to be carried out in the order given. Where
    /// everything is destroyed already there are none, and nothing
    /// changes: a second teardown destroys nothing twice.
    pub fn teardown_all(&mut self) -> (ops: Vec<DestroyOp>)
        requires
            old(self).wf(),
        ensures
            ops@ == full_teardown(*old(self)),
            final(self).resources is None,
            final(self).scheduler@ == (SchedulerState {
                phase: Phase::TornDown,
                ..old(self).scheduler@
            }),
            final(self).scheduler.frames_in_flight == old(self).scheduler.frames_in_flight,
            final(self).negotiated == old(self).negotiated,
            same_device_objects(*old(self), *final(self)),
            final(self).wf(),
            old(self).scheduler.phase == Phase::TornDown ==> ops@.len() == 0,
            full_teardown(*final(self)).len() == 0,
    {
        let mut ops: Vec<DestroyOp> = Vec::new();
        match self.scheduler.phase {
            Phase::TornDown => {
                self.resources = None;
                self.scheduler.stop();
                return ops;
            },
            _ => {},
        }
        ops.push(DestroyOp::WaitIdle);
        match &self.resources {
            Some(res) => {
                push_size_dependent(&mut ops, res);
            },
            None => {},
        }
        assert(ops@ =~= seq![DestroyOp::WaitIdle] + remaining_size_dependent_ops(*self));
        let ghost head = ops@;
        push_pipeline(&mut ops, &self.pipeline);
        push_mesh(&mut ops, &self.mesh);
        push_one(&mut ops, ResourceKind::CommandPool, self.device.command_pool);
        push_sync(&mut ops, &self.sync);
        push_instance(&mut ops, &self.device);
        assert(ops@ =~= head + device_ops(*self));
        self.resources = None;
        self.scheduler.stop();
        ops
    }
}

/// Appending operations of one depth, no less than any before them, keeps a
/// sequence ordered.
proof fn lemma_extend(a: Seq<DestroyOp>, b: Seq<DestroyOp>, lo: nat, hi: nat, d: nat)
    requires
        ordered(a),
        ranks_between(a, lo, hi),
        ordered(b),
        ranks_between(b, d, d),
        lo <= hi <= d,
    ensures
        ordered(a + b),
        ranks_between(a + b, lo, d),
{
    assert(ranks_between(a, lo, d));
    lemma_join_ordered(a, b, lo, d, d);
}

/// The destruction of one object is ordered, at the depth of its kind.
proof fn lemma_destroy_one_ordered(kind: ResourceKind, handle: u64)
    ensures
        ordered(destroy_one(kind, handle)),
        ranks_between(destroy_one(kind, handle), depth(kind), depth(kind)),
{
}

/// The size-dependent objects are destroyed in the order of destruction:
/// framebuffers before image views, image views before the swapchain, each
/// uniform buffer before its memory.
pub proof fn lemma_size_dependent_ordered(res: SwapchainResources)
    ensures
        ordered(size_dependent_ops(res)),
        ranks_between(size_dependent_ops(res), 1, 7),
{
    let a1 = destroy_each(ResourceKind::Framebuffer, res.swapchain.framebuffers@);
    let a2 = destroy_each(ResourceKind::CommandBuffer, res.command_buffers@);
    let a3 = destroy_each(ResourceKind::ImageView, res.swapchain.image_views@);
    let a4 = destroy_one(ResourceKind::Swapchain, res.swapchain.swapchain);
    let a5 = destroy_each(ResourceKind::UniformBuffer, res.per_image.uniform_buffers@);
    let a6 = destroy_each(ResourceKind::UniformMemory, res.per_image.uniform_buffers_mem@);
    let a7 = destroy_some(ResourceKind::DescriptorPool, res.per_image.descriptor_pool);
    lemma_destroy_each_ordered(ResourceKind::Framebuffer, res.swapchain.framebuffers@);
    lemma_destroy_each_ordered(ResourceKind::CommandBuffer, res.command_buffers@);
    lemma_destroy_each_ordered(ResourceKind::ImageView, res.swapchain.image_views@);
    lemma_destroy_one_ordered(ResourceKind::Swapchain, res.swapchain.swapchain);
    lemma_destroy_each_ordered(ResourceKind::UniformBuffer, res.per_image.uniform_buffers@);
    lemma_destroy_each_ordered(ResourceKind::UniformMemory, res.per_image.uniform_buffers_mem@);
    lemma_destroy_some_ordered(ResourceKind::DescriptorPool, res.per_image.descriptor_pool);
    lemma_extend(a1, a2, 1, 1, 2);
    lemma_extend(a1 + a2, a3, 1, 2, 3);
    lemma_extend(a1 + a2 + a3, a4, 1, 3, 4);
    lemma_extend(a1 + a2 + a3 + a4, a5, 1, 4, 5);
    lemma_extend(a1 + a2 + a3 + a4 + a5, a6, 1, 5, 6);
    lemma_extend(a1 + a2 + a3 + a4 + a5 + a6, a7, 1, 6, 7);
}

/// The pipeline goes before its layout and its render pass, and the layout
/// before the descriptor-set layout.
pub proof fn lemma_pipeline_ops_ordered(pipeline: PipelineHandles)
    ensures
        ordered(pipeline_ops(pipeline)),
        ranks_between(pipeline_ops(pipeline), 8, 11),
{
    let b1 = destroy_one(ResourceKind::Pipeline, pipeline.graphics_pipeline);
    let b2 = destroy_one(ResourceKind::PipelineLayout, pipeline.pipeline_layout);
    let b3 = destroy_one(ResourceKind::RenderPass, pipeline.render_pass);
    let b4 = destroy_one(ResourceKind::DescriptorSetLayout, pipeline.descriptor_set_layout);
    lemma_destroy_one_ordered(ResourceKind::Pipeline, pipeline.graphics_pipeline);
    lemma_destroy_one_ordered(ResourceKind::PipelineLayout, pipeline.pipeline_layout);
    lemma_destroy_one_ordered(ResourceKind::RenderPass, pipeline.render_pass);
    lemma_destroy_one_ordered(ResourceKind::DescriptorSetLayout, pipeline.descriptor_set_layout);
    lemma_extend(b1, b2, 8, 8, 9);
    lemma_extend(b1 + b2, b3, 8, 9, 10);
    lemma_extend(b1 + b2 + b3, b4, 8, 10, 11);
}

/// Every buffer of the mesh, and the texture, goes before its memory.
pub proof fn lemma_mesh_ops_ordered(mesh: MeshHandles)
    ensures
        ordered(mesh_ops(mesh)),
        ranks_between(mesh_ops(mesh), 12, 17),
{
    let b1 = destroy_one(ResourceKind::VertexBuffer, mesh.vertex_buffer);
    let b2 = destroy_one(ResourceKind::VertexMemory, mesh.vertex_buffer_mem);
    let b3 = destroy_one(ResourceKind::IndexBuffer, mesh.index_buffer);
    let b4 = destroy_one(ResourceKind::IndexMemory, mesh.index_buffer_mem);
    let b5 = destroy_some(ResourceKind::TextureImage, mesh.texture_image);
    let b6 = destroy_some(ResourceKind::TextureMemory, mesh.texture_image_mem);
    lemma_destroy_one_ordered(ResourceKind::VertexBuffer, mesh.vertex_buffer);
    lemma_destroy_one_ordered(ResourceKind::VertexMemory, mesh.vertex_buffer_mem);
    lemma_destroy_one_ordered(ResourceKind::IndexBuffer, mesh.index_buffer);
    lemma_destroy_one_ordered(ResourceKind::IndexMemory, mesh.index_buffer_mem);
    lemma_destroy_some_ordered(ResourceKind::TextureImage, mesh.texture_image);
    lemma_destroy_some_ordered(ResourceKind::TextureMemory, mesh.texture_image_mem);
    lemma_extend(b1, b2, 12, 12, 13);
    lemma_extend(b1 + b2, b3, 12, 13, 14);
    lemma_extend(b1 + b2 + b3, b4, 12, 14, 15);
    lemma_extend(b1 + b2 + b3 + b4, b5, 12, 15, 16);
    lemma_extend(b1 + b2 + b3 + b4 + b5, b6, 12, 16, 17);
}

/// The synchronization objects go in the order of destruction.
pub proof fn lemma_sync_ops_ordered(sync: Seq<FrameSync>)
    ensures
        ordered(sync_ops(sync)),
        ranks_between(sync_ops(sync), 19, 21),
{
    let b1 = destroy_each(ResourceKind::ImageAvailableSemaphore, image_available_of(sync));
    let b2 = destroy_each(ResourceKind::RenderFinishedSemaphore, render_finished_of(sync));
    let b3 = destroy_each(ResourceKind::Fence, fences_of(sync));
    lemma_destroy_each_ordered(ResourceKind::ImageAvailableSemaphore, image_available_of(sync));
    lemma_destroy_each_ordered(ResourceKind::RenderFinishedSemaphore, render_finished_of(sync));
    lemma_destroy_each_ordered(ResourceKind::Fence, fences_of(sync));
    lemma_extend(b1, b2, 19, 19, 20);
    lemma_extend(b1 + b2, b3, 19, 20, 21);
}

/// The surface goes before the device, and the device before the instance.
pub proof fn lemma_instance_ops_ordered(device: DeviceHandles)
    ensures
        ordered(instance_ops(device)),
        ranks_between(instance_ops(device), 22, 25),
{
    let b1 = destroy_some(ResourceKind::DebugMessenger, device.debug_messenger);
    let b2 = destroy_one(ResourceKind::Surface, device.surface);
    let b3 = destroy_one(ResourceKind::Device, device.device);
    let b4 = destroy_one(ResourceKind::Instance, device.instance);
    lemma_destroy_some_ordered(ResourceKind::DebugMessenger, device.debug_messenger);
    lemma_destroy_one_ordered(ResourceKind::Surface, device.surface);
    lemma_destroy_one_ordered(ResourceKind::Device, device.device);
    lemma_destroy_one_ordered(ResourceKind::Instance, device.instance);
    lemma_extend(b1, b2, 22, 22, 23);
    lemma_extend(b1 + b2, b3, 22, 23, 24);
    lemma_extend(b1 + b2 + b3, b4, 22, 24, 25);
}

/// The objects that outlive a swapchain are destroyed in the order of
/// destruction: the pipeline before its layout and the render pass, every
/// buffer and the texture before its memory, and the surface, the device
/// and the instance last, in this order.
pub proof fn lemma_device_ops_ordered(r: Renderer)
    ensures
        ordered(device_ops(r)),
        ranks_between(device_ops(r), 8, 25),
{
    let a = pipeline_ops(r.pipeline);
    let b = mesh_ops(r.mesh);
    let c = destroy_one(ResourceKind::CommandPool, r.device.command_pool);
    let d = sync_ops(r.sync@);
    let e = instance_ops(r.device);
    lemma_pipeline_ops_ordered(r.pipeline);
    lemma_mesh_ops_ordered(r.mesh);
    lemma_destroy_one_ordered(ResourceKind::CommandPool, r.device.command_pool);
    lemma_sync_ops_ordered(r.sync@);
    lemma_instance_ops_ordered(r.device);
    assert(ranks_between(a, 8, 12));
    lemma_join_ordered(a, b, 8, 12, 17);
    lemma_extend(a + b, c, 8, 17, 18);
    assert(ranks_between(a + b + c, 8, 19));
    lemma_join_ordered(a + b + c, d, 8, 19, 21);
    assert(ranks_between(a + b + c + d, 8, 22));
    lemma_join_ordered(a + b + c + d, e, 8, 22, 25);
}

/// Every teardown of the size-dependent objects is in the order of
/// destruction, the wait for the idle device first.
pub proof fn lemma_swapchain_teardown_ordered(r: Renderer)
    ensures
        ordered(swapchain_teardown(r)),
{
    match r.resources {
        Some(res) => {
            lemma_size_dependent_ordered(res);
            let wait = seq![DestroyOp::WaitIdle];
            assert(ranks_between(size_dependent_ops(res), 0, 7));
            lemma_join_ordered(wait, size_dependent_ops(res), 0, 0, 7);
        },
        None => {},
    }
}

/// Every full teardown is in the order of destruction: the wait for the
/// idle device first, and no object before one that depends on it.
pub proof fn lemma_full_teardown_ordered(r: Renderer)
    ensures
        ordered(full_teardown(r)),
{
    if r.scheduler.phase != Phase::TornDown {
        let wait = seq![DestroyOp::WaitIdle];
        let middle = remaining_size_dependent_ops(r);
        match r.resources {
            Some(res) => {
                lemma_size_dependent_ordered(res);
            },
            None => {},
        }
        assert(ranks_between(middle, 0, 7));
        lemma_join_ordered(wait, middle, 0, 0, 7);
        lemma_device_ops_ordered(r);
        assert(ranks_between(wait + middle, 0, 8));
        lemma_join_ordered(wait + middle, device_ops(r), 0, 8, 25);
    }
}

/// The extent that a recreation asks for lies within the limits of the
/// surface whenever the surface's report is valid; it is the surface's
/// current extent where that is defined, and else the drawable size last
/// noted, brought within the limits.
pub proof fn lemma_recreated_extent_in_bounds(r: Renderer, caps: SurfaceCapabilities)
    requires
        capabilities_valid(caps),
    ensures
        extent_within(
            recreation_plan(r, caps).extent,
            caps.min_image_extent,
            caps.max_image_extent,
        ),
        caps.current_extent.width != EXTENT_UNDEFINED ==> recreation_plan(r, caps).extent
            == caps.current_extent,
        recreation_plan(r, caps).extent == negotiated_extent(caps, r.drawable),
        recreation_plan(r, caps).format == r.negotiated.format,
        recreation_plan(r, caps).present_mode == r.negotiated.present_mode,
{
    lemma_negotiated_extent_in_bounds(caps, r.drawable);
}

/// A full teardown begins with the teardown of the size-dependent objects:
/// while they stand, it is that teardown followed by the destruction of
/// what outlives a swapchain.
pub proof fn lemma_full_teardown_extends_swapchain_teardown(r: Renderer)
    requires
        r.resources is Some,
        r.scheduler.phase != Phase::TornDown,
    ensures
        full_teardown(r) == swapchain_teardown(r) + device_ops(r),
{
}

/// Once everything is destroyed nothing is left to destroy: both teardowns
/// of a renderer that was torn down are empty.
pub proof fn lemma_torn_down_has_nothing_left(r: Renderer)
    requires
        r.wf(),
        r.scheduler.phase == Phase::TornDown,
    ensures
        full_teardown(r).len() == 0,
        swapchain_teardown(r).len() == 0,
{
}

/// While a swapchain stands, images, views, framebuffers, uniform buffers,
/// their memories and descriptor sets are equal in number; that number is
/// the image count of the swapchain and no less than the count that was
/// negotiated; there is one command buffer for each frame slot.
pub proof fn lemma_counts_agree(r: Renderer)
    requires
        r.wf(),
        r.resources is Some,
    ensures
        ({
            let res = r.resources.unwrap();
            let n = res.swapchain.image_count as nat;
            &&& n >= 1
            &&& n >= r.negotiated.image_count
            &&& res.swapchain.surface_extent == r.negotiated.extent
            &&& res.swapchain.images.len() == n
            &&& res.swapchain.image_views.len() == n
            &&& res.swapchain.framebuffers.len() == n
            &&& res.per_image.uniform_buffers.len() == n
            &&& res.per_image.uniform_buffers_mem.len() == n
            &&& res.per_image.descriptor_sets.len() == n
            &&& res.command_buffers.len() == r.scheduler.slots.len()
        }),
{
}

} // verus!
