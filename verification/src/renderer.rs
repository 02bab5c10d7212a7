//! The renderer: the handles of every device object it owns, the frame
//! scheduler, and what each step of a frame is to be carried out with.
//!
//! The renderer makes no call to the device. It holds handles as plain
//! numbers, is told what the device answered, and says which call comes next
//! and with which handles.

use crate::flags::STAGE_COLOR_ATTACHMENT_OUTPUT;
use crate::frame::{
    lemma_decision_in_range, next, Decision, FrameError, FrameEvent, FrameScheduler, Phase,
    SchedulerState, SlotState, Stage,
};
use crate::lifetime::DestroyOp;
use crate::status::ErrorKind;
use crate::swapchain::{Extent2D, Swapchain, SwapchainPlan};
use vstd::prelude::*;

verus! {

/// The objects that live as long as the device.
#[derive(Clone, Copy, Debug, PartialEq, Eq, Structural)]
pub struct DeviceHandles {
    pub instance: u64,
    pub device: u64,
    pub surface: u64,
    pub present_queue: u64,
    pub queue_family_index: u32,
    pub command_pool: u64,
    pub debug_messenger: Option<u64>,
}

/// The render pass and the pipeline built for it.
#[derive(Clone, Copy, Debug, PartialEq, Eq, Structural)]
pub struct PipelineHandles {
    pub render_pass: u64,
    pub descriptor_set_layout: u64,
    pub pipeline_layout: u64,
    pub graphics_pipeline: u64,
}

/// The vertex and index data that every frame draws, and the texture where
/// one was uploaded.
#[derive(Clone, Copy, Debug, PartialEq, Eq, Structural)]
pub struct MeshHandles {
    pub vertex_buffer: u64,
    pub vertex_buffer_mem: u64,
    pub index_buffer: u64,
    pub index_buffer_mem: u64,
    pub index_count: u32,
    pub texture_image: Option<u64>,
    pub texture_image_mem: Option<u64>,
}

/// The synchronization objects of one frame slot.
#[derive(Clone, Copy, Debug, PartialEq, Eq, Structural)]
pub struct FrameSync {
    pub image_available: u64,
    pub render_finished: u64,
    pub fence: u64,
}

/// The resources of which there is one for each swapchain image.
#[derive(Debug, PartialEq, Eq)]
pub struct PerImage {
    pub uniform_buffers: Vec<u64>,
    pub uniform_buffers_mem: Vec<u64>,
    pub descriptor_pool: Option<u64>,
    pub descriptor_sets: Vec<u64>,
}

/// Everything that depends on the size of the window: the swapchain with
/// its views and framebuffers, the command buffers of the frame slots, and
/// the resources held once for each image.
#[derive(Debug, PartialEq, Eq)]
pub struct SwapchainResources {
    pub swapchain: Swapchain,
    pub command_buffers: Vec<u64>,
    pub per_image: PerImage,
}

/// What one frame is drawn with.
#[derive(Clone, Copy, Debug, PartialEq, Eq, Structural)]
pub struct DrawPlan {
    pub slot: usize,
    pub image_index: u32,
    pub extent: Extent2D,
    pub uniform_buffer: u64,
    pub uniform_memory: u64,
    pub descriptor_set: u64,
    pub framebuffer: u64,
    pub command_buffer: u64,
    pub queue: u64,
    pub wait_semaphore: u64,
    pub wait_stage: u32,
    pub signal_semaphore: u64,
    pub fence: u64,
}

/// A failure that ends rendering, with the step and the object it befell.
#[derive(Clone, Copy, Debug, PartialEq, Eq, Structural)]
pub struct RenderFailure {
    pub kind: ErrorKind,
    pub stage: Stage,
    pub handle: u64,
}

/// The call that is to be made next, with its handles.
#[derive(Clone, Copy, Debug, PartialEq, Eq, Structural)]
pub enum FrameAction {
    /// Wait for the fence, for at most `timeout` nanoseconds, then reset it.
    WaitFence { fence: u64, timeout: u64 },
    /// Acquire the next image; the semaphore is signaled when it is there.
    Acquire { swapchain: u64, semaphore: u64, timeout: u64 },
    /// Write the uniform data, record the command buffer and submit it.
    Draw(DrawPlan),
    /// Present the image once the semaphore is signaled.
    Present { queue: u64, swapchain: u64, wait_semaphore: u64, image_index: u32 },
    /// Call `recreate_swapchain` and carry out what it returns.
    Recreate,
    /// Build the new swapchain and call `install_swapchain`.
    Rebuild,
    /// Nothing: the frame is over.
    Done,
    /// Nothing: rendering has failed.
    Fail(RenderFailure),
    /// Nothing: everything is destroyed.
    Stopped,
}

/// One command of a frame's command buffer.
#[derive(Clone, Copy, Debug, PartialEq, Eq, Structural)]
pub enum Command {
    BeginRenderPass { render_pass: u64, framebuffer: u64, extent: Extent2D },
    BindPipeline { pipeline: u64 },
    BindVertexBuffer { buffer: u64, offset: u64 },
    BindIndexBuffer { buffer: u64, offset: u64 },
    SetViewport { extent: Extent2D },
    SetScissor { extent: Extent2D },
    BindDescriptorSet { layout: u64, set: u64 },
    DrawIndexed { index_count: u32, instance_count: u32 },
    EndRenderPass,
}

/// Why no renderer could be made of what was handed over.
#[derive(Clone, Copy, Debug, PartialEq, Eq, Structural)]
pub enum RendererError {
    /// There is no frame slot.
    NoFrameSlots,
    /// The resources do not agree in number with the images or the slots.
    CountMismatch,
    /// The swapchain is not the one that was negotiated.
    PlanMismatch,
}

/// Why the swapchain cannot be recreated.
#[derive(Clone, Copy, Debug, PartialEq, Eq, Structural)]
pub enum RecreateError {
    /// Rendering has failed or everything is destroyed.
    Unrecoverable,
    /// One more image than the surface's minimum cannot be counted.
    ImageCountOverflow,
}

/// Why the new swapchain was not taken.
#[derive(Clone, Copy, Debug, PartialEq, Eq, Structural)]
pub enum InstallError {
    /// The renderer is not waiting for a swapchain.
    NotRebuilding,
    /// The resources do not agree in number with the images or the slots.
    CountMismatch,
    /// The swapchain is not the one that was negotiated.
    PlanMismatch,
}

/// What the swapchain is to be torn down and rebuilt with.
#[derive(Debug, PartialEq, Eq)]
pub struct RecreatePlan {
    pub teardown: Vec<DestroyOp>,
    pub swapchain: SwapchainPlan,
}

/// The renderer.
#[derive(Debug)]
pub struct Renderer {
    pub device: DeviceHandles,
    pub pipeline: PipelineHandles,
    pub mesh: MeshHandles,
    pub sync: Vec<FrameSync>,
    pub resources: Option<SwapchainResources>,
    pub negotiated: SwapchainPlan,
    pub drawable: Extent2D,
    pub timeout: u64,
    pub scheduler: FrameScheduler,
}

/// Whether the size-dependent resources agree with each other and with
/// `frames` frame slots: the swapchain's counts agree, there is one command
/// buffer for each slot, and one uniform buffer, one memory and one
/// descriptor set for each image, from a pool that exists.
pub open spec fn resources_fit(res: SwapchainResources, frames: nat) -> bool {
    &&& res.swapchain.wf()
    &&& res.command_buffers.len() == frames
    &&& res.per_image.uniform_buffers.len() == res.swapchain.image_count
    &&& res.per_image.uniform_buffers_mem.len() == res.swapchain.image_count
    &&& res.per_image.descriptor_sets.len() == res.swapchain.image_count
    &&& res.per_image.descriptor_pool is Some
}

/// Whether the swapchain is the one that was negotiated: it has the format,
/// the present mode and the extent of the plan, and at least as many images
/// as the plan asks for.
pub open spec fn resources_match(res: SwapchainResources, plan: SwapchainPlan) -> bool {
    &&& res.swapchain.surface_format == plan.format
    &&& res.swapchain.present_mode == plan.present_mode
    &&& res.swapchain.surface_extent == plan.extent
    &&& res.swapchain.image_count >= plan.image_count
}

/// The number of images of the swapchain, none while there is no swapchain.
pub open spec fn image_count_of(r: Renderer) -> u32 {
    match r.resources {
        Some(res) => res.swapchain.image_count,
        None => 0,
    }
}

/// Whether a phase goes with the presence of a swapchain of `images` images.
pub open spec fn phase_fits(phase: Phase, present: bool, images: u32) -> bool {
    match phase {
        Phase::Ready => present,
        Phase::AwaitFence => present,
        Phase::AwaitImage => present,
        Phase::AwaitSubmit { image } => present && image < images,
        Phase::AwaitPresent { image } => present && image < images,
        Phase::NeedsRecreate { .. } => present,
        Phase::Rebuilding { .. } => !present,
        Phase::Failed(_) => true,
        Phase::TornDown => !present,
    }
}

/// The handle of the object that a failure befell: the fence of the slot,
/// the swapchain, the queue, or, for a rebuild, the surface.
pub open spec fn failure_handle(r: Renderer, e: FrameError) -> u64 {
    match e.stage {
        Stage::FenceWait => if e.slot < r.sync.len() {
            r.sync@[e.slot as int].fence
        } else {
            0
        },
        Stage::Submit => r.device.present_queue,
        Stage::Rebuild => r.device.surface,
        _ => match r.resources {
            Some(res) => res.swapchain.swapchain,
            None => 0,
        },
    }
}

/// What the frame in `slot` draws `image` with: the uniform buffer, the
/// descriptor set and the framebuffer are those of the image; the command
/// buffer, the semaphores and the fence are those of the slot.
pub open spec fn draw_plan(r: Renderer, res: SwapchainResources, slot: usize, image: u32)
    -> DrawPlan {
    DrawPlan {
        slot,
        image_index: image,
        extent: res.swapchain.surface_extent,
        uniform_buffer: res.per_image.uniform_buffers@[image as int],
        uniform_memory: res.per_image.uniform_buffers_mem@[image as int],
        descriptor_set: res.per_image.descriptor_sets@[image as int],
        framebuffer: res.swapchain.framebuffers@[image as int],
        command_buffer: res.command_buffers@[slot as int],
        queue: r.device.present_queue,
        wait_semaphore: r.sync@[slot as int].image_available,
        wait_stage: STAGE_COLOR_ATTACHMENT_OUTPUT,
        signal_semaphore: r.sync@[slot as int].render_finished,
        fence: r.sync@[slot as int].fence,
    }
}

/// The call that carries out a decision of the scheduler.
pub open spec fn action_for(r: Renderer, d: Decision) -> FrameAction {
    match d {
        Decision::Wait { slot } => FrameAction::WaitFence {
            fence: r.sync@[slot as int].fence,
            timeout: r.timeout,
        },
        Decision::Acquire { slot } => match r.resources {
            Some(res) => FrameAction::Acquire {
                swapchain: res.swapchain.swapchain,
                semaphore: r.sync@[slot as int].image_available,
                timeout: r.timeout,
            },
            None => FrameAction::Rebuild,
        },
        Decision::Draw { slot, image } => match r.resources {
            Some(res) => FrameAction::Draw(draw_plan(r, res, slot, image)),
            None => FrameAction::Rebuild,
        },
        Decision::Present { slot, image } => match r.resources {
            Some(res) => FrameAction::Present {
                queue: r.device.present_queue,
                swapchain: res.swapchain.swapchain,
                wait_semaphore: r.sync@[slot as int].render_finished,
                image_index: image,
            },
            None => FrameAction::Rebuild,
        },
        Decision::Recreate => FrameAction::Recreate,
        Decision::Rebuild => FrameAction::Rebuild,
        Decision::Done => FrameAction::Done,
        Decision::Fail(e) => FrameAction::Fail(
            RenderFailure { kind: e.kind, stage: e.stage, handle: failure_handle(r, e) },
        ),
        Decision::Stopped => FrameAction::Stopped,
    }
}

/// The commands of one frame: the render pass on the framebuffer of the
/// plan, the pipeline, the vertex and index buffers, viewport and scissor
/// of the plan's extent, the descriptor set of the plan, one indexed draw of
/// the whole mesh, and the end of the pass.
pub open spec fn recorded(pipeline: PipelineHandles, mesh: MeshHandles, plan: DrawPlan) -> Seq<
    Command,
> {
    seq![
        Command::BeginRenderPass {
            render_pass: pipeline.render_pass,
            framebuffer: plan.framebuffer,
            extent: plan.extent,
        },
        Command::BindPipeline { pipeline: pipeline.graphics_pipeline },
        Command::BindVertexBuffer { buffer: mesh.vertex_buffer, offset: 0 },
        Command::BindIndexBuffer { buffer: mesh.index_buffer, offset: 0 },
        Command::SetViewport { extent: plan.extent },
        Command::SetScissor { extent: plan.extent },
        Command::BindDescriptorSet { layout: pipeline.pipeline_layout, set: plan.descriptor_set },
        Command::DrawIndexed { index_count: mesh.index_count, instance_count: 1 },
        Command::EndRenderPass,
    ]
}

/// Everything of the renderer but the scheduler is the same in `a` and `b`.
pub open spec fn same_but_scheduler(a: Renderer, b: Renderer) -> bool {
    &&& a.device == b.device
    &&& a.pipeline == b.pipeline
    &&& a.mesh == b.mesh
    &&& a.sync == b.sync
    &&& a.resources == b.resources
    &&& a.negotiated == b.negotiated
    &&& a.drawable == b.drawable
    &&& a.timeout == b.timeout
}

/// Everything of the renderer but the scheduler, the size-dependent
/// resources and the plan they are made for is the same in `a` and `b`.
pub open spec fn same_device_objects(a: Renderer, b: Renderer) -> bool {
    &&& a.device == b.device
    &&& a.pipeline == b.pipeline
    &&& a.mesh == b.mesh
    &&& a.sync == b.sync
    &&& a.drawable == b.drawable
    &&& a.timeout == b.timeout
}

/// Whether the swapchain is the one that was negotiated.
pub fn matches_plan(res: &SwapchainResources, plan: &SwapchainPlan) -> (r: bool)
    ensures
        r == resources_match(*res, *plan),
{
    res.swapchain.surface_format.format == plan.format.format
        && res.swapchain.surface_format.color_space == plan.format.color_space
        && res.swapchain.present_mode == plan.present_mode && res.swapchain.surface_extent.width
        == plan.extent.width && res.swapchain.surface_extent.height == plan.extent.height
        && res.swapchain.image_count >= plan.image_count
}

/// Whether the resources agree in number.
pub fn fits(res: &SwapchainResources, frames: usize) -> (r: bool)
    ensures
        r == resources_fit(*res, frames as nat),
{
    let n = res.swapchain.images.len();
    res.swapchain.is_well_formed() && res.command_buffers.len() == frames
        && res.per_image.uniform_buffers.len() == n && res.per_image.uniform_buffers_mem.len()
        == n && res.per_image.descriptor_sets.len() == n && res.per_image.descriptor_pool.is_some()
}

impl Renderer {
    /// The renderer is in a state that can arise: the scheduler is, there
    /// is one set of synchronization objects for each frame slot, the
    /// size-dependent resources agree in number and are those that were
    /// negotiated where they exist, and they exist exactly while the phase
    /// needs them.
    pub open spec fn wf(&self) -> bool {
        &&& self.scheduler.wf()
        &&& self.sync.len() == self.scheduler.slots.len()
        &&& self.resources is Some ==> resources_fit(
            self.resources.unwrap(),
            self.sync.len() as nat,
        )
        &&& self.resources is Some ==> resources_match(self.resources.unwrap(), self.negotiated)
        &&& phase_fits(self.scheduler.phase, self.resources is Some, image_count_of(*self))
    }

    /// A renderer for the objects handed over, with one frame slot for each
    /// element of `sync`, ready for its first frame. `plan` is what was
    /// negotiated with the surface, `resources` what was created from it.
    ///
    /// Fails exactly when there is no frame slot, the resources do not
    /// agree in number, or the swapchain is not the one negotiated.
    pub fn new(
        device: DeviceHandles,
        pipeline: PipelineHandles,
        mesh: MeshHandles,
        sync: Vec<FrameSync>,
        plan: SwapchainPlan,
        resources: SwapchainResources,
        drawable: Extent2D,
        timeout: u64,
    ) -> (r: Result<Renderer, RendererError>)
        ensures
            r is Ok <==> sync.len() >= 1 && resources_fit(resources, sync.len() as nat)
                && resources_match(resources, plan),
            r is Err ==> r->Err_0 == if sync.len() == 0 {
                RendererError::NoFrameSlots
            } else if !resources_fit(resources, sync.len() as nat) {
                RendererError::CountMismatch
            } else {
                RendererError::PlanMismatch
            },
            r is Ok ==> {
                let v = r->Ok_0;
                &&& v.wf()
                &&& v.device == device
                &&& v.pipeline == pipeline
                &&& v.mesh == mesh
                &&& v.sync == sync
                &&& v.resources == Some(resources)
                &&& v.negotiated == plan
                &&& v.drawable == drawable
                &&& v.timeout == timeout
                &&& v.scheduler.frames_in_flight == sync.len()
                &&& v.scheduler@ == SchedulerState {
                    current_frame: 0,
                    slots: Seq::new(sync.len() as nat, |i: int| SlotState::Idle),
                    should_recreate: false,
                    phase: Phase::Ready,
                }
            },
    {
        let scheduler = match FrameScheduler::new(sync.len()) {
            Some(s) => s,
            None => {
                return Err(RendererError::NoFrameSlots);
            },
        };
        if !fits(&resources, sync.len()) {
            return Err(RendererError::CountMismatch);
        }
        if !matches_plan(&resources, &plan) {
            return Err(RendererError::PlanMismatch);
        }
        Ok(
            Renderer {
                device,
                pipeline,
                mesh,
                sync,
                resources: Some(resources),
                negotiated: plan,
                drawable,
                timeout,
                scheduler,
            },
        )
    }

    /// Whether the renderer is in a state that can arise.
    pub fn is_well_formed(&self) -> (r: bool)
        ensures
            r == self.wf(),
    {
        if !self.scheduler.is_well_formed() || self.sync.len() != self.scheduler.slots.len() {
            return false;
        }
        let (present, images) = match &self.resources {
            Some(res) => {
                if !fits(res, self.sync.len()) || !matches_plan(res, &self.negotiated) {
                    return false;
                }
                (true, res.swapchain.image_count)
            },
            None => (false, 0),
        };
        match self.scheduler.phase {
            Phase::Ready => present,
            Phase::AwaitFence => present,
            Phase::AwaitImage => present,
            Phase::AwaitSubmit { image } => present && image < images,
            Phase::AwaitPresent { image } => present && image < images,
            Phase::NeedsRecreate { .. } => present,
            Phase::Rebuilding { .. } => !present,
            Phase::Failed(_) => true,
            Phase::TornDown => !present,
        }
    }

    /// The number of images of the swapchain, none while there is none.
    pub fn image_count(&self) -> (n: u32)
        ensures
            n == image_count_of(*self),
    {
        match &self.resources {
            Some(res) => res.swapchain.image_count,
            None => 0,
        }
    }

    /// Takes what the device answered to the last call and says which call
    /// comes next, with the handles to make it with.
    ///
    /// A frame is asked for with `FrameEvent::Begin` and is over when the
    /// answer is `Done`. The resources of an image are chosen by the index
    /// that the acquisition returned, those of a frame slot by the frame
    /// counter. A stale swapchain is answered with `Recreate` and never
    /// with a failure.
    pub fn render(&mut self, event: FrameEvent) -> (action: FrameAction)
        requires
            old(self).wf(),
        ensures
            final(self).wf(),
            same_but_scheduler(*old(self), *final(self)),
            final(self).scheduler.frames_in_flight == old(self).scheduler.frames_in_flight,
            final(self).scheduler@ == next(
                old(self).scheduler@,
                image_count_of(*old(self)),
                event,
            ).0,
            action == action_for(
                *old(self),
                next(old(self).scheduler@, image_count_of(*old(self)), event).1,
            ),
    {
        let image_count = self.image_count();
        proof {
            lemma_decision_in_range(self.scheduler@, image_count, event);
        }
        let d = self.scheduler.step(image_count, event);
        self.action(d)
    }

    /// The call that carries out a decision.
    fn action(&self, d: Decision) -> (action: FrameAction)
        requires
            match d {
                Decision::Wait { slot } => slot < self.sync.len(),
                Decision::Acquire { slot } => slot < self.sync.len(),
                Decision::Draw { slot, image } => slot < self.sync.len() && (self.resources is Some
                    ==> image < self.resources.unwrap().swapchain.image_count),
                Decision::Present { slot, .. } => slot < self.sync.len(),
                _ => true,
            },
            self.resources is Some ==> resources_fit(
                self.resources.unwrap(),
                self.sync.len() as nat,
            ),
        ensures
            action == action_for(*self, d),
    {
        match d {
            Decision::Wait { slot } => FrameAction::WaitFence {
                fence: self.sync[slot].fence,
                timeout: self.timeout,
            },
            Decision::Acquire { slot } => match &self.resources {
                Some(res) => FrameAction::Acquire {
                    swapchain: res.swapchain.swapchain,
                    semaphore: self.sync[slot].image_available,
                    timeout: self.timeout,
                },
                None => FrameAction::Rebuild,
            },
            Decision::Draw { slot, image } => match &self.resources {
                Some(res) => {
                    let i = image as usize;
                    FrameAction::Draw(
                        DrawPlan {
                            slot,
                            image_index: image,
                            extent: res.swapchain.surface_extent,
                            uniform_buffer: res.per_image.uniform_buffers[i],
                            uniform_memory: res.per_image.uniform_buffers_mem[i],
                            descriptor_set: res.per_image.descriptor_sets[i],
                            framebuffer: res.swapchain.framebuffers[i],
                            command_buffer: res.command_buffers[slot],
                            queue: self.device.present_queue,
                            wait_semaphore: self.sync[slot].image_available,
                            wait_stage: STAGE_COLOR_ATTACHMENT_OUTPUT,
                            signal_semaphore: self.sync[slot].render_finished,
                            fence: self.sync[slot].fence,
                        },
                    )
                },
                None => FrameAction::Rebuild,
            },
            Decision::Present { slot, image } => match &self.resources {
                Some(res) => FrameAction::Present {
                    queue: self.device.present_queue,
                    swapchain: res.swapchain.swapchain,
                    wait_semaphore: self.sync[slot].render_finished,
                    image_index: image,
                },
                None => FrameAction::Rebuild,
            },
            Decision::Recreate => FrameAction::Recreate,
            Decision::Rebuild => FrameAction::Rebuild,
            Decision::Done => FrameAction::Done,
            Decision::Fail(e) => {
                let handle = match e.stage {
                    Stage::FenceWait => {
                        if e.slot < self.sync.len() {
                            self.sync[e.slot].fence
                        } else {
                            0
                        }
                    },
                    Stage::Submit => self.device.present_queue,
                    Stage::Rebuild => self.device.surface,
                    _ => match &self.resources {
                        Some(res) => res.swapchain.swapchain,
                        None => 0,
                    },
                };
                FrameAction::Fail(RenderFailure { kind: e.kind, stage: e.stage, handle })
            },
            Decision::Stopped => FrameAction::Stopped,
        }
    }

    /// The commands to record for a frame, in order.
    pub fn record_commands(&self, plan: &DrawPlan) -> (commands: Vec<Command>)
        ensures
            commands@ == recorded(self.pipeline, self.mesh, *plan),
    {
        let mut commands: Vec<Command> = Vec::new();
        commands.push(
            Command::BeginRenderPass {
                render_pass: self.pipeline.render_pass,
                framebuffer: plan.framebuffer,
                extent: plan.extent,
            },
        );
        commands.push(Command::BindPipeline { pipeline: self.pipeline.graphics_pipeline });
        commands.push(Command::BindVertexBuffer { buffer: self.mesh.vertex_buffer, offset: 0 });
        commands.push(Command::BindIndexBuffer { buffer: self.mesh.index_buffer, offset: 0 });
        commands.push(Command::SetViewport { extent: plan.extent });
        commands.push(Command::SetScissor { extent: plan.extent });
        commands.push(
            Command::BindDescriptorSet {
                layout: self.pipeline.pipeline_layout,
                set: plan.descriptor_set,
            },
        );
        commands.push(
            Command::DrawIndexed { index_count: self.mesh.index_count, instance_count: 1 },
        );
        commands.push(Command::EndRenderPass);
        assert(commands@ =~= recorded(self.pipeline, self.mesh, *plan));
        commands
    }

    /// Notes that the drawable surface has the size `new_extent` from now
    /// on. The frame under way is not touched: the swapchain is recreated
    /// after that frame has been presented.
    pub fn notify_resized(&mut self, new_extent: Extent2D)
        ensures
            final(self).drawable == new_extent,
            final(self).scheduler@ == (SchedulerState {
                should_recreate: true,
                ..old(self).scheduler@
            }),
            final(self).scheduler.frames_in_flight == old(self).scheduler.frames_in_flight,
            final(self).device == old(self).device,
            final(self).pipeline == old(self).pipeline,
            final(self).mesh == old(self).mesh,
            final(self).sync == old(self).sync,
            final(self).resources == old(self).resources,
            final(self).negotiated == old(self).negotiated,
            final(self).timeout == old(self).timeout,
            old(self).wf() ==> final(self).wf(),
    {
        self.drawable = new_extent;
        self.scheduler.notify_resized();
    }
}

/// The resources of an image are chosen by the index of the image, those of
/// a frame slot by the index of the slot, whatever the two indices are: the
/// draw for `image` in `slot` uses the uniform buffer, the memory, the
/// descriptor set and the framebuffer at `image`, and the command buffer,
/// the semaphores and the fence at `slot`.
pub proof fn lemma_draw_uses_image_resources(r: Renderer, slot: usize, image: u32)
    requires
        r.resources is Some,
    ensures
        ({
            let res = r.resources.unwrap();
            let action = action_for(r, Decision::Draw { slot, image });
            &&& action is Draw
            &&& action->Draw_0.image_index == image
            &&& action->Draw_0.slot == slot
            &&& action->Draw_0.uniform_buffer == res.per_image.uniform_buffers@[image as int]
            &&& action->Draw_0.uniform_memory == res.per_image.uniform_buffers_mem@[image as int]
            &&& action->Draw_0.descriptor_set == res.per_image.descriptor_sets@[image as int]
            &&& action->Draw_0.framebuffer == res.swapchain.framebuffers@[image as int]
            &&& action->Draw_0.command_buffer == res.command_buffers@[slot as int]
            &&& action->Draw_0.wait_semaphore == r.sync@[slot as int].image_available
            &&& action->Draw_0.signal_semaphore == r.sync@[slot as int].render_finished
            &&& action->Draw_0.fence == r.sync@[slot as int].fence
        }),
{
}

/// Whenever a frame is answered with a draw, the draw is for the image that
/// the acquisition returned and for the current frame slot, and it uses the
/// resources at these two indices.
pub proof fn lemma_acquired_image_is_drawn(r: Renderer, index: u32)
    requires
        r.wf(),
        r.scheduler.phase == Phase::AwaitImage,
        index < image_count_of(r),
    ensures
        ({
            let slot = r.scheduler.current_frame;
            let d = next(
                r.scheduler@,
                image_count_of(r),
                FrameEvent::Acquired(Ok((index, false))),
            ).1;
            &&& d == Decision::Draw { slot, image: index }
            &&& action_for(r, d) == FrameAction::Draw(
                draw_plan(r, r.resources.unwrap(), slot, index),
            )
        }),
{
}

} // verus!
