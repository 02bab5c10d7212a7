//! The order in which device objects are destroyed.
//!
//! Destruction runs against the dependency graph: what was built from an
//! object goes before the object itself. The order is fixed once, here, by
//! the depth of each kind of object, and every teardown is a sequence of
//! operations in that order.

use vstd::prelude::*;

verus! {

/// The kinds of device object that the renderer owns.
#[derive(Clone, Copy, Debug, PartialEq, Eq, Structural)]
pub enum ResourceKind {
    Framebuffer,
    CommandBuffer,
    ImageView,
    Swapchain,
    UniformBuffer,
    UniformMemory,
    DescriptorPool,
    Pipeline,
    PipelineLayout,
    RenderPass,
    DescriptorSetLayout,
    VertexBuffer,
    VertexMemory,
    IndexBuffer,
    IndexMemory,
    TextureImage,
    TextureMemory,
    CommandPool,
    ImageAvailableSemaphore,
    RenderFinishedSemaphore,
    Fence,
    DebugMessenger,
    Surface,
    Device,
    Instance,
}

/// One step of a teardown.
#[derive(Clone, Copy, Debug, PartialEq, Eq, Structural)]
pub enum DestroyOp {
    /// Wait until the device has finished all submitted work.
    WaitIdle,
    /// Destroy or free the object of this kind with this handle.
    Destroy { kind: ResourceKind, handle: u64 },
}

/// The place of a kind in the order of destruction: a kind of lesser depth
/// is destroyed before one of greater depth.
pub open spec fn depth(kind: ResourceKind) -> nat {
    match kind {
        ResourceKind::Framebuffer => 1,
        ResourceKind::CommandBuffer => 2,
        ResourceKind::ImageView => 3,
        ResourceKind::Swapchain => 4,
        ResourceKind::UniformBuffer => 5,
        ResourceKind::UniformMemory => 6,
        ResourceKind::DescriptorPool => 7,
        ResourceKind::Pipeline => 8,
        ResourceKind::PipelineLayout => 9,
        ResourceKind::RenderPass => 10,
        ResourceKind::DescriptorSetLayout => 11,
        ResourceKind::VertexBuffer => 12,
        ResourceKind::VertexMemory => 13,
        ResourceKind::IndexBuffer => 14,
        ResourceKind::IndexMemory => 15,
        ResourceKind::TextureImage => 16,
        ResourceKind::TextureMemory => 17,
        ResourceKind::CommandPool => 18,
        ResourceKind::ImageAvailableSemaphore => 19,
        ResourceKind::RenderFinishedSemaphore => 20,
        ResourceKind::Fence => 21,
        ResourceKind::DebugMessenger => 22,
        ResourceKind::Surface => 23,
        ResourceKind::Device => 24,
        ResourceKind::Instance => 25,
    }
}

/// The place of an operation in the order: the wait comes first.
pub open spec fn rank(op: DestroyOp) -> nat {
    match op {
        DestroyOp::WaitIdle => 0,
        DestroyOp::Destroy { kind, .. } => depth(kind),
    }
}

/// Whether an object of kind `a` is built from, allocated from or bound to
/// an object of kind `b`, so that it must be gone before `b` goes.
pub open spec fn depends_on(a: ResourceKind, b: ResourceKind) -> bool {
    match (a, b) {
        (ResourceKind::Framebuffer, ResourceKind::ImageView) => true,
        (ResourceKind::Framebuffer, ResourceKind::RenderPass) => true,
        (ResourceKind::ImageView, ResourceKind::Swapchain) => true,
        (ResourceKind::Swapchain, ResourceKind::Surface) => true,
        (ResourceKind::CommandBuffer, ResourceKind::CommandPool) => true,
        (ResourceKind::UniformBuffer, ResourceKind::UniformMemory) => true,
        (ResourceKind::VertexBuffer, ResourceKind::VertexMemory) => true,
        (ResourceKind::IndexBuffer, ResourceKind::IndexMemory) => true,
        (ResourceKind::TextureImage, ResourceKind::TextureMemory) => true,
        (ResourceKind::DescriptorPool, ResourceKind::DescriptorSetLayout) => true,
        (ResourceKind::Pipeline, ResourceKind::PipelineLayout) => true,
        (ResourceKind::Pipeline, ResourceKind::RenderPass) => true,
        (ResourceKind::PipelineLayout, ResourceKind::DescriptorSetLayout) => true,
        (ResourceKind::DebugMessenger, ResourceKind::Instance) => true,
        (ResourceKind::Surface, ResourceKind::Instance) => true,
        (ResourceKind::Device, ResourceKind::Instance) => true,
        (ResourceKind::Device, _) => false,
        (ResourceKind::Instance, _) => false,
        (ResourceKind::DebugMessenger, _) => false,
        (ResourceKind::Surface, _) => false,
        (_, ResourceKind::Device) => true,
        _ => false,
    }
}

/// The operations that destroy the objects of one kind, in the order of
/// their handles.
pub open spec fn destroy_each(kind: ResourceKind, handles: Seq<u64>) -> Seq<DestroyOp> {
    Seq::new(handles.len(), |i: int| DestroyOp::Destroy { kind, handle: handles[i] })
}

/// The operation that destroys an object which may not exist.
pub open spec fn destroy_some(kind: ResourceKind, handle: Option<u64>) -> Seq<DestroyOp> {
    match handle {
        Some(h) => seq![DestroyOp::Destroy { kind, handle: h }],
        None => Seq::empty(),
    }
}

/// A sequence of operations in the order of destruction.
pub open spec fn ordered(ops: Seq<DestroyOp>) -> bool {
    forall|i: int, j: int| 0 <= i < j < ops.len() ==> rank(ops[i]) <= rank(ops[j])
}

/// Every operation of the sequence has a rank from `lo` to `hi`.
pub open spec fn ranks_between(ops: Seq<DestroyOp>, lo: nat, hi: nat) -> bool {
    forall|i: int| 0 <= i < ops.len() ==> lo <= rank(#[trigger] ops[i]) <= hi
}

/// The depth of a kind orders it before everything that it depends on.
pub proof fn lemma_dependents_are_shallower(a: ResourceKind, b: ResourceKind)
    requires
        depends_on(a, b),
    ensures
        depth(a) < depth(b),
{
}

/// In an ordered sequence an object is destroyed before every object that
/// it depends on.
pub proof fn lemma_dependents_go_first(ops: Seq<DestroyOp>, i: int, j: int)
    requires
        ordered(ops),
        0 <= i < ops.len(),
        0 <= j < ops.len(),
        ops[i] is Destroy,
        ops[j] is Destroy,
        depends_on(ops[i]->kind, ops[j]->kind),
    ensures
        i < j,
{
    lemma_dependents_are_shallower(ops[i]->kind, ops[j]->kind);
    if j < i {
        assert(rank(ops[j]) <= rank(ops[i]));
    }
}

/// In an ordered sequence the wait for the idle device comes before every
/// destruction.
pub proof fn lemma_wait_goes_first(ops: Seq<DestroyOp>, i: int, j: int)
    requires
        ordered(ops),
        0 <= i < ops.len(),
        0 <= j < ops.len(),
        ops[i] is WaitIdle,
        ops[j] is Destroy,
    ensures
        i < j,
{
    if j < i {
        assert(rank(ops[j]) <= rank(ops[i]));
    }
}

/// The destructions of one kind are ordered, at the depth of the kind.
pub proof fn lemma_destroy_each_ordered(kind: ResourceKind, handles: Seq<u64>)
    ensures
        ordered(destroy_each(kind, handles)),
        ranks_between(destroy_each(kind, handles), depth(kind), depth(kind)),
        destroy_each(kind, handles).len() == handles.len(),
{
}

/// The destruction of an object that may not exist is ordered, at the depth
/// of its kind.
pub proof fn lemma_destroy_some_ordered(kind: ResourceKind, handle: Option<u64>)
    ensures
        ordered(destroy_some(kind, handle)),
        ranks_between(destroy_some(kind, handle), depth(kind), depth(kind)),
{
}

/// Two ordered sequences, the first of which stays below the second, make
/// an ordered sequence when joined.
pub proof fn lemma_join_ordered(a: Seq<DestroyOp>, b: Seq<DestroyOp>, lo: nat, mid: nat, hi: nat)
    requires
        ordered(a),
        ordered(b),
        ranks_between(a, lo, mid),
        ranks_between(b, mid, hi),
        lo <= mid <= hi,
    ensures
        ordered(a + b),
        ranks_between(a + b, lo, hi),
{
    let c = a + b;
    assert forall|i: int| 0 <= i < c.len() implies lo <= rank(#[trigger] c[i]) <= hi by {
        if i < a.len() {
            assert(c[i] == a[i]);
        } else {
            assert(c[i] == b[i - a.len()]);
        }
    }
    assert forall|i: int, j: int| 0 <= i < j < c.len() implies rank(c[i]) <= rank(c[j]) by {
        if j < a.len() {
            assert(c[i] == a[i] && c[j] == a[j]);
        } else if i < a.len() {
            assert(c[i] == a[i]);
            assert(c[j] == b[j - a.len()]);
        } else {
            assert(c[i] == b[i - a.len()]);
            assert(c[j] == b[j - a.len()]);
        }
    }
}

/// Appends the destruction of every handle of one kind.
pub fn push_each(ops: &mut Vec<DestroyOp>, kind: ResourceKind, handles: &Vec<u64>)
    ensures
        final(ops)@ == old(ops)@ + destroy_each(kind, handles@),
{
    let ghost before = ops@;
    let mut i: usize = 0;
    while i < handles.len()
        invariant
            0 <= i <= handles.len(),
            ops@ == before + destroy_each(kind, handles@.take(i as int)),
        decreases handles.len() - i,
    {
        ops.push(DestroyOp::Destroy { kind, handle: handles[i] });
        i += 1;
        assert(ops@ =~= before + destroy_each(kind, handles@.take(i as int)));
    }
    assert(handles@.take(handles.len() as int) =~= handles@);
}

/// Appends the destruction of an object that may not exist.
pub fn push_some(ops: &mut Vec<DestroyOp>, kind: ResourceKind, handle: Option<u64>)
    ensures
        final(ops)@ == old(ops)@ + destroy_some(kind, handle),
{
    match handle {
        Some(h) => {
            ops.push(DestroyOp::Destroy { kind, handle: h });
            assert(ops@ =~= old(ops)@ + destroy_some(kind, handle));
        },
        None => {
            assert(ops@ =~= old(ops)@ + destroy_some(kind, handle));
        },
    }
}

} // verus!
