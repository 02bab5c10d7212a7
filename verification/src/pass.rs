//! The render pass and the vertex input of the pipeline, as plain
//! descriptions built from static configuration.

use crate::barrier::LAYOUT_UNDEFINED;
use crate::flags::{
    contains_bits, ACCESS_COLOR_ATTACHMENT_WRITE, ACCESS_DEPTH_STENCIL_ATTACHMENT_WRITE,
    STAGE_COLOR_ATTACHMENT_OUTPUT, STAGE_EARLY_FRAGMENT_TESTS,
};
use vstd::prelude::*;

verus! {

/// The subpass index that stands for everything outside the render pass.
pub const SUBPASS_EXTERNAL: u32 = 0xFFFF_FFFF;

/// One sample for each pixel.
pub const SAMPLE_COUNT_1: u32 = 0x1;

/// Load operation: clear the attachment.
pub const LOAD_OP_CLEAR: i32 = 1;

/// Load operation: the old contents do not matter.
pub const LOAD_OP_DONT_CARE: i32 = 2;

/// Store operation: keep what was rendered.
pub const STORE_OP_STORE: i32 = 0;

/// Store operation: what was rendered need not be kept.
pub const STORE_OP_DONT_CARE: i32 = 1;

/// Image layout: best for use as a colour attachment.
pub const LAYOUT_COLOR_ATTACHMENT_OPTIMAL: i32 = 2;

/// Image layout: best for use as a depth and stencil attachment.
pub const LAYOUT_DEPTH_STENCIL_ATTACHMENT_OPTIMAL: i32 = 3;

/// Image layout: ready to be presented.
pub const LAYOUT_PRESENT_SRC: i32 = 1_000_001_002;

/// Format of one 32-bit float.
pub const FORMAT_R32_SFLOAT: i32 = 100;

/// Format of two 32-bit floats.
pub const FORMAT_R32G32_SFLOAT: i32 = 103;

/// Format of three 32-bit floats.
pub const FORMAT_R32G32B32_SFLOAT: i32 = 106;

/// Format of four 32-bit floats.
pub const FORMAT_R32G32B32A32_SFLOAT: i32 = 109;

/// How one attachment of a render pass is loaded, stored and laid out.
#[derive(Clone, Copy, Debug, PartialEq, Eq, Structural)]
pub struct AttachmentDescription {
    pub format: i32,
    pub samples: u32,
    pub load_op: i32,
    pub store_op: i32,
    pub stencil_load_op: i32,
    pub stencil_store_op: i32,
    pub initial_layout: i32,
    pub final_layout: i32,
}

/// The use of an attachment by a subpass.
#[derive(Clone, Copy, Debug, PartialEq, Eq, Structural)]
pub struct AttachmentReference {
    pub attachment: u32,
    pub layout: i32,
}

/// An ordering between two subpasses.
#[derive(Clone, Copy, Debug, PartialEq, Eq, Structural)]
pub struct SubpassDependency {
    pub src_subpass: u32,
    pub dst_subpass: u32,
    pub src_stage_mask: u32,
    pub dst_stage_mask: u32,
    pub src_access_mask: u32,
    pub dst_access_mask: u32,
}

/// A render pass of one subpass.
#[derive(Debug, PartialEq, Eq)]
pub struct RenderPassPlan {
    pub attachments: Vec<AttachmentDescription>,
    pub color: AttachmentReference,
    pub depth: Option<AttachmentReference>,
    pub dependency: SubpassDependency,
}

/// The colour attachment: cleared, stored, and left ready to be presented.
pub open spec fn color_attachment(format: i32) -> AttachmentDescription {
    AttachmentDescription {
        format,
        samples: SAMPLE_COUNT_1,
        load_op: LOAD_OP_CLEAR,
        store_op: STORE_OP_STORE,
        stencil_load_op: LOAD_OP_DONT_CARE,
        stencil_store_op: STORE_OP_DONT_CARE,
        initial_layout: LAYOUT_UNDEFINED,
        final_layout: LAYOUT_PRESENT_SRC,
    }
}

/// The depth attachment: cleared, and not kept after the pass.
pub open spec fn depth_attachment(format: i32) -> AttachmentDescription {
    AttachmentDescription {
        format,
        samples: SAMPLE_COUNT_1,
        load_op: LOAD_OP_CLEAR,
        store_op: STORE_OP_DONT_CARE,
        stencil_load_op: LOAD_OP_DONT_CARE,
        stencil_store_op: STORE_OP_STORE,
        initial_layout: LAYOUT_UNDEFINED,
        final_layout: LAYOUT_DEPTH_STENCIL_ATTACHMENT_OPTIMAL,
    }
}

/// The dependency of the one subpass on what came before the pass: its
/// writes to the attachments wait for the stages that wrote them before.
pub open spec fn external_dependency(with_depth: bool) -> SubpassDependency {
    if with_depth {
        SubpassDependency {
            src_subpass: SUBPASS_EXTERNAL,
            dst_subpass: 0,
            src_stage_mask: STAGE_COLOR_ATTACHMENT_OUTPUT | STAGE_EARLY_FRAGMENT_TESTS,
            dst_stage_mask: STAGE_COLOR_ATTACHMENT_OUTPUT | STAGE_EARLY_FRAGMENT_TESTS,
            src_access_mask: 0,
            dst_access_mask: ACCESS_COLOR_ATTACHMENT_WRITE | ACCESS_DEPTH_STENCIL_ATTACHMENT_WRITE,
        }
    } else {
        SubpassDependency {
            src_subpass: SUBPASS_EXTERNAL,
            dst_subpass: 0,
            src_stage_mask: STAGE_COLOR_ATTACHMENT_OUTPUT,
            dst_stage_mask: STAGE_COLOR_ATTACHMENT_OUTPUT,
            src_access_mask: 0,
            dst_access_mask: ACCESS_COLOR_ATTACHMENT_WRITE,
        }
    }
}

/// The attachments of the pass: colour first, then depth where there is one.
pub open spec fn pass_attachments(color_format: i32, depth_format: Option<i32>) -> Seq<
    AttachmentDescription,
> {
    match depth_format {
        Some(d) => seq![color_attachment(color_format), depth_attachment(d)],
        None => seq![color_attachment(color_format)],
    }
}

/// The render pass for a colour format and, where wanted, a depth format:
/// one subpass that renders to attachment 0 and tests depth against
/// attachment 1, and one dependency on what came before the pass.
pub fn render_pass_plan(color_format: i32, depth_format: Option<i32>) -> (plan: RenderPassPlan)
    ensures
        plan.attachments@ == pass_attachments(color_format, depth_format),
        plan.color == (AttachmentReference {
            attachment: 0,
            layout: LAYOUT_COLOR_ATTACHMENT_OPTIMAL,
        }),
        plan.depth == match depth_format {
            Some(_) => Some(
                AttachmentReference {
                    attachment: 1,
                    layout: LAYOUT_DEPTH_STENCIL_ATTACHMENT_OPTIMAL,
                },
            ),
            None => None,
        },
        plan.dependency == external_dependency(depth_format is Some),
        plan.color.attachment < plan.attachments.len(),
        plan.depth is Some ==> plan.depth.unwrap().attachment < plan.attachments.len(),
{
    let mut attachments: Vec<AttachmentDescription> = Vec::new();
    attachments.push(
        AttachmentDescription {
            format: color_format,
            samples: SAMPLE_COUNT_1,
            load_op: LOAD_OP_CLEAR,
            store_op: STORE_OP_STORE,
            stencil_load_op: LOAD_OP_DONT_CARE,
            stencil_store_op: STORE_OP_DONT_CARE,
            initial_layout: LAYOUT_UNDEFINED,
            final_layout: LAYOUT_PRESENT_SRC,
        },
    );
    let color = AttachmentReference { attachment: 0, layout: LAYOUT_COLOR_ATTACHMENT_OPTIMAL };
    match depth_format {
        Some(format) => {
            attachments.push(
                AttachmentDescription {
                    format,
                    samples: SAMPLE_COUNT_1,
                    load_op: LOAD_OP_CLEAR,
                    store_op: STORE_OP_DONT_CARE,
                    stencil_load_op: LOAD_OP_DONT_CARE,
                    stencil_store_op: STORE_OP_STORE,
                    initial_layout: LAYOUT_UNDEFINED,
                    final_layout: LAYOUT_DEPTH_STENCIL_ATTACHMENT_OPTIMAL,
                },
            );
            assert(attachments@ =~= pass_attachments(color_format, depth_format));
            RenderPassPlan {
                attachments,
                color,
                depth: Some(
                    AttachmentReference {
                        attachment: 1,
                        layout: LAYOUT_DEPTH_STENCIL_ATTACHMENT_OPTIMAL,
                    },
                ),
                dependency: SubpassDependency {
                    src_subpass: SUBPASS_EXTERNAL,
                    dst_subpass: 0,
                    src_stage_mask: STAGE_COLOR_ATTACHMENT_OUTPUT | STAGE_EARLY_FRAGMENT_TESTS,
                    dst_stage_mask: STAGE_COLOR_ATTACHMENT_OUTPUT | STAGE_EARLY_FRAGMENT_TESTS,
                    src_access_mask: 0,
                    dst_access_mask: ACCESS_COLOR_ATTACHMENT_WRITE
                        | ACCESS_DEPTH_STENCIL_ATTACHMENT_WRITE,
                },
            }
        },
        None => {
            assert(attachments@ =~= pass_attachments(color_format, depth_format));
            RenderPassPlan {
                attachments,
                color,
                depth: None,
                dependency: SubpassDependency {
                    src_subpass: SUBPASS_EXTERNAL,
                    dst_subpass: 0,
                    src_stage_mask: STAGE_COLOR_ATTACHMENT_OUTPUT,
                    dst_stage_mask: STAGE_COLOR_ATTACHMENT_OUTPUT,
                    src_access_mask: 0,
                    dst_access_mask: ACCESS_COLOR_ATTACHMENT_WRITE,
                },
            }
        },
    }
}

/// The dependency of the pass always comes from outside the pass, leads to
/// its one subpass, and holds the subpass's colour writes back until the
/// colour output before it is done; with a depth attachment it does the same
/// for depth writes and the early depth tests.
pub proof fn lemma_dependency_serializes_writes(with_depth: bool)
    ensures
        ({
            let d = external_dependency(with_depth);
            &&& d.src_subpass == SUBPASS_EXTERNAL
            &&& d.dst_subpass == 0
            &&& contains_bits(d.src_stage_mask, STAGE_COLOR_ATTACHMENT_OUTPUT)
            &&& contains_bits(d.dst_stage_mask, STAGE_COLOR_ATTACHMENT_OUTPUT)
            &&& contains_bits(d.dst_access_mask, ACCESS_COLOR_ATTACHMENT_WRITE)
            &&& with_depth ==> contains_bits(d.src_stage_mask, STAGE_EARLY_FRAGMENT_TESTS)
            &&& with_depth ==> contains_bits(d.dst_stage_mask, STAGE_EARLY_FRAGMENT_TESTS)
            &&& with_depth ==> contains_bits(
                d.dst_access_mask,
                ACCESS_DEPTH_STENCIL_ATTACHMENT_WRITE,
            )
        }),
{
    assert(contains_bits(0x400u32 | 0x100u32, 0x400u32)) by (bit_vector);
    assert(contains_bits(0x400u32 | 0x100u32, 0x100u32)) by (bit_vector);
    assert(contains_bits(0x100u32 | 0x400u32, 0x100u32)) by (bit_vector);
    assert(contains_bits(0x100u32 | 0x400u32, 0x400u32)) by (bit_vector);
    assert(contains_bits(0x400u32, 0x400u32)) by (bit_vector);
    assert(contains_bits(0x100u32, 0x100u32)) by (bit_vector);
}

/// One attribute of the vertex input.
#[derive(Clone, Copy, Debug, PartialEq, Eq, Structural)]
pub struct VertexAttribute {
    pub location: u32,
    pub binding: u32,
    pub format: i32,
    pub offset: u32,
}

/// The vertex input of one binding: its stride and its attributes.
#[derive(Debug, PartialEq, Eq)]
pub struct VertexLayout {
    pub binding: u32,
    pub stride: u32,
    pub attributes: Vec<VertexAttribute>,
}

/// The format of an attribute of `n` 32-bit floats, for `n` from 1 to 4.
pub open spec fn float_format(n: u32) -> i32 {
    if n == 1 {
        FORMAT_R32_SFLOAT
    } else if n == 2 {
        FORMAT_R32G32_SFLOAT
    } else if n == 3 {
        FORMAT_R32G32B32_SFLOAT
    } else {
        FORMAT_R32G32B32A32_SFLOAT
    }
}

/// The bytes that the first `i` attributes take, at four bytes a float.
pub open spec fn bytes_before(components: Seq<u32>, i: int) -> int
    decreases i,
{
    if i <= 0 {
        0
    } else {
        bytes_before(components, i - 1) + 4 * components[i - 1]
    }
}

/// Whether every attribute has from one to four floats.
pub open spec fn components_valid(components: Seq<u32>) -> bool {
    forall|i: int| 0 <= i < components.len() ==> 1 <= #[trigger] components[i] <= 4
}

/// Attribute `i` of the layout for `components`: at location `i`, of the
/// float format of its size, right behind the attributes before it.
pub open spec fn attribute_at(components: Seq<u32>, i: int) -> VertexAttribute {
    VertexAttribute {
        location: i as u32,
        binding: 0,
        format: float_format(components[i]),
        offset: bytes_before(components, i) as u32,
    }
}

/// Whether a vertex of these attributes can be laid out: every attribute
/// has from one to four floats, and locations and offsets fit 32 bits.
pub open spec fn layout_exists(components: Seq<u32>) -> bool {
    &&& components_valid(components)
    &&& bytes_before(components, components.len() as int) <= u32::MAX
}

/// The bytes taken grow with the number of attributes.
pub proof fn lemma_bytes_before_grows(components: Seq<u32>, i: int, j: int)
    requires
        0 <= i <= j <= components.len(),
    ensures
        0 <= bytes_before(components, i) <= bytes_before(components, j),
        components_valid(components) ==> bytes_before(components, j) >= 4 * j,
    decreases j,
{
    if i < j {
        lemma_bytes_before_grows(components, i, j - 1);
    } else if j > 0 {
        lemma_bytes_before_grows(components, i - 1, j - 1);
    }
}

/// The layout of a vertex whose attributes are tightly packed floats:
/// `components[i]` floats for the attribute at location `i`.
///
/// `None` exactly when an attribute has no float or more than four, or the
/// vertex is larger than 32 bits can say.
pub fn vertex_layout(components: &Vec<u32>) -> (r: Option<VertexLayout>)
    ensures
        r is Some <==> layout_exists(components@),
        r is Some ==> {
            let layout = r.unwrap();
            &&& layout.binding == 0
            &&& layout.stride == bytes_before(components@, components.len() as int)
            &&& layout.attributes@ == Seq::new(
                components.len() as nat,
                |i: int| attribute_at(components@, i),
            )
        },
{
    let mut attributes: Vec<VertexAttribute> = Vec::new();
    let mut offset: u32 = 0;
    let mut i: usize = 0;
    while i < components.len()
        invariant
            0 <= i <= components.len(),
            offset == bytes_before(components@, i as int),
            4 * i <= offset,
            forall|j: int| 0 <= j < i ==> 1 <= #[trigger] components@[j] <= 4,
            attributes@ == Seq::new(i as nat, |k: int| attribute_at(components@, k)),
        decreases components.len() - i,
    {
        let n = components[i];
        if n < 1 || n > 4 {
            return None;
        }
        if offset > u32::MAX - 4 * n {
            proof {
                lemma_bytes_before_grows(components@, i as int + 1, components.len() as int);
            }
            return None;
        }
        let format = if n == 1 {
            FORMAT_R32_SFLOAT
        } else if n == 2 {
            FORMAT_R32G32_SFLOAT
        } else if n == 3 {
            FORMAT_R32G32B32_SFLOAT
        } else {
            FORMAT_R32G32B32A32_SFLOAT
        };
        attributes.push(VertexAttribute { location: i as u32, binding: 0, format, offset });
        offset = offset + 4 * n;
        i += 1;
        assert(attributes@ =~= Seq::new(i as nat, |k: int| attribute_at(components@, k)));
    }
    Some(VertexLayout { binding: 0, stride: offset, attributes })
}

/// The attributes of a layout do not overlap and fill the vertex: each ends
/// where the next begins, and the last ends at the stride.
pub proof fn lemma_attributes_are_packed(components: Seq<u32>, i: int)
    requires
        layout_exists(components),
        0 <= i < components.len(),
    ensures
        attribute_at(components, i).offset + 4 * components[i] == bytes_before(components, i + 1),
        bytes_before(components, i + 1) <= bytes_before(components, components.len() as int),
        i + 1 < components.len() ==> attribute_at(components, i + 1).offset == attribute_at(
            components,
            i,
        ).offset + 4 * components[i],
{
    lemma_bytes_before_grows(components, i, components.len() as int);
    lemma_bytes_before_grows(components, i + 1, components.len() as int);
    if i + 1 < components.len() {
        lemma_bytes_before_grows(components, i + 2, components.len() as int);
    }
}

/// The size in bytes of a buffer of `count` elements of `element_size`
/// bytes each. `None` exactly when the size does not fit 64 bits.
pub fn buffer_size(element_size: u64, count: u64) -> (r: Option<u64>)
    ensures
        r is Some <==> element_size * count <= u64::MAX,
        r is Some ==> r.unwrap() == element_size * count,
{
    if element_size == 0 || count == 0 {
        assert(element_size * count == 0) by (nonlinear_arith)
            requires
                element_size == 0 || count == 0,
        ;
        return Some(0);
    }
    if element_size > u64::MAX / count {
        assert(element_size * count > u64::MAX) by (nonlinear_arith)
            requires
                count > 0,
                element_size > u64::MAX / count,
        ;
        None
    } else {
        assert(element_size * count <= u64::MAX) by (nonlinear_arith)
            requires
                count > 0,
                element_size <= u64::MAX / count,
        ;
        Some(element_size * count)
    }
}

} // verus!
