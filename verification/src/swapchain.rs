//! Swapchain negotiation and the state of a swapchain and of what is built
//! on its images.

use crate::status::{classify, frame_failure, frame_failure_of, status_of, ErrorKind, Status};
use vstd::prelude::*;

verus! {

/// The 8-bit BGRA sRGB colour format.
pub const FORMAT_B8G8R8A8_SRGB: i32 = 50;

/// The sRGB non-linear colour space.
pub const COLOR_SPACE_SRGB_NONLINEAR: i32 = 0;

/// Present mode that never blocks and drops stale frames.
pub const PRESENT_MODE_MAILBOX: i32 = 1;

/// Present mode locked to the vertical blank; always offered.
pub const PRESENT_MODE_FIFO: i32 = 2;

/// The width by which a surface says that its extent follows the swapchain.
pub const EXTENT_UNDEFINED: u32 = 0xFFFF_FFFF;

/// A size in pixels.
#[derive(Clone, Copy, Debug, PartialEq, Eq, Structural)]
pub struct Extent2D {
    pub width: u32,
    pub height: u32,
}

/// A colour format with its colour space.
#[derive(Clone, Copy, Debug, PartialEq, Eq, Structural)]
pub struct SurfaceFormat {
    pub format: i32,
    pub color_space: i32,
}

/// What a surface reports of its limits.
#[derive(Clone, Copy, Debug, PartialEq, Eq, Structural)]
pub struct SurfaceCapabilities {
    pub min_image_count: u32,
    pub max_image_count: u32,
    pub current_extent: Extent2D,
    pub min_image_extent: Extent2D,
    pub max_image_extent: Extent2D,
    pub current_transform: u32,
}

/// What a swapchain is created with.
#[derive(Clone, Copy, Debug, PartialEq, Eq, Structural)]
pub struct SwapchainPlan {
    pub format: SurfaceFormat,
    pub present_mode: i32,
    pub extent: Extent2D,
    pub image_count: u32,
    pub pre_transform: u32,
}

/// Why no swapchain can be negotiated or held.
#[derive(Clone, Copy, Debug, PartialEq, Eq, Structural)]
pub enum SwapchainError {
    /// The surface reports no format at all.
    NoSurfaceFormat,
    /// One more image than the surface's minimum cannot be counted.
    ImageCountOverflow,
    /// The images, views and framebuffers handed over differ in number, are
    /// fewer than negotiated, or are none.
    CountMismatch,
}

/// `x` brought into `[lo, hi]`.
pub open spec fn clamped(x: u32, lo: u32, hi: u32) -> u32 {
    if x < lo {
        lo
    } else if x > hi {
        hi
    } else {
        x
    }
}

/// Whether `e` lies within `[lo, hi]` in both dimensions.
pub open spec fn extent_within(e: Extent2D, lo: Extent2D, hi: Extent2D) -> bool {
    &&& lo.width <= e.width <= hi.width
    &&& lo.height <= e.height <= hi.height
}

/// A capability report as the API promises it: the least extent is no
/// greater than the greatest, and a current extent that is defined lies
/// between them.
pub open spec fn capabilities_valid(caps: SurfaceCapabilities) -> bool {
    &&& caps.min_image_extent.width <= caps.max_image_extent.width
    &&& caps.min_image_extent.height <= caps.max_image_extent.height
    &&& caps.current_extent.width != EXTENT_UNDEFINED ==> extent_within(
        caps.current_extent,
        caps.min_image_extent,
        caps.max_image_extent,
    )
}

/// The preferred surface format.
pub open spec fn preferred_format() -> SurfaceFormat {
    SurfaceFormat { format: FORMAT_B8G8R8A8_SRGB, color_space: COLOR_SPACE_SRGB_NONLINEAR }
}

/// The negotiated format: the preferred one where the surface offers it,
/// else the first that the surface reports.
pub open spec fn negotiated_format(formats: Seq<SurfaceFormat>) -> SurfaceFormat
    recommends
        formats.len() > 0,
{
    if formats.contains(preferred_format()) {
        preferred_format()
    } else {
        formats[0]
    }
}

/// The negotiated present mode: mailbox where offered, else FIFO.
pub open spec fn negotiated_present_mode(modes: Seq<i32>) -> i32 {
    if modes.contains(PRESENT_MODE_MAILBOX) {
        PRESENT_MODE_MAILBOX
    } else {
        PRESENT_MODE_FIFO
    }
}

/// The negotiated extent: the surface's current extent where it is defined;
/// else the drawable size, brought within the surface's limits.
pub open spec fn negotiated_extent(caps: SurfaceCapabilities, drawable: Extent2D) -> Extent2D {
    if caps.current_extent.width == EXTENT_UNDEFINED {
        Extent2D {
            width: clamped(drawable.width, caps.min_image_extent.width, caps.max_image_extent.width),
            height: clamped(
                drawable.height,
                caps.min_image_extent.height,
                caps.max_image_extent.height,
            ),
        }
    } else {
        caps.current_extent
    }
}

/// The negotiated image count: one more than the surface's minimum, but no
/// more than its maximum where the surface has one.
pub open spec fn negotiated_image_count(caps: SurfaceCapabilities) -> int {
    if caps.max_image_count > 0 && caps.min_image_count + 1 > caps.max_image_count {
        caps.max_image_count as int
    } else {
        caps.min_image_count + 1
    }
}

/// Picks the surface format.
pub fn choose_surface_format(formats: &Vec<SurfaceFormat>) -> (r: Option<SurfaceFormat>)
    ensures
        r is None <==> formats.len() == 0,
        r is Some ==> r.unwrap() == negotiated_format(formats@),
{
    if formats.len() == 0 {
        return None;
    }
    let mut i: usize = 0;
    while i < formats.len()
        invariant
            0 <= i <= formats.len(),
            forall|j: int| 0 <= j < i ==> formats@[j] != preferred_format(),
        decreases formats.len() - i,
    {
        let f = formats[i];
        if f.format == FORMAT_B8G8R8A8_SRGB && f.color_space == COLOR_SPACE_SRGB_NONLINEAR {
            assert(formats@[i as int] == preferred_format());
            return Some(f);
        }
        i += 1;
    }
    Some(formats[0])
}

/// Picks the present mode.
pub fn choose_present_mode(modes: &Vec<i32>) -> (r: i32)
    ensures
        r == negotiated_present_mode(modes@),
{
    let mut i: usize = 0;
    while i < modes.len()
        invariant
            0 <= i <= modes.len(),
            forall|j: int| 0 <= j < i ==> modes@[j] != PRESENT_MODE_MAILBOX,
        decreases modes.len() - i,
    {
        if modes[i] == PRESENT_MODE_MAILBOX {
            assert(modes@[i as int] == PRESENT_MODE_MAILBOX);
            return PRESENT_MODE_MAILBOX;
        }
        i += 1;
    }
    PRESENT_MODE_FIFO
}

fn clamp(x: u32, lo: u32, hi: u32) -> (r: u32)
    ensures
        r == clamped(x, lo, hi),
{
    if x < lo {
        lo
    } else if x > hi {
        hi
    } else {
        x
    }
}

/// Picks the extent of the swapchain images.
///
/// Where the report is valid the result lies within the surface's limits,
/// and it is the surface's current extent whenever that is defined.
pub fn choose_extent(caps: &SurfaceCapabilities, drawable: Extent2D) -> (r: Extent2D)
    ensures
        r == negotiated_extent(*caps, drawable),
        caps.current_extent.width != EXTENT_UNDEFINED ==> r == caps.current_extent,
        capabilities_valid(*caps) ==> extent_within(
            r,
            caps.min_image_extent,
            caps.max_image_extent,
        ),
{
    if caps.current_extent.width == EXTENT_UNDEFINED {
        Extent2D {
            width: clamp(drawable.width, caps.min_image_extent.width, caps.max_image_extent.width),
            height: clamp(
                drawable.height,
                caps.min_image_extent.height,
                caps.max_image_extent.height,
            ),
        }
    } else {
        caps.current_extent
    }
}

/// Picks the number of images to ask for.
///
/// `None` exactly when the count does not fit the API's 32-bit integer: the
/// surface's minimum is the greatest integer and it names no maximum.
pub fn choose_image_count(caps: &SurfaceCapabilities) -> (r: Option<u32>)
    ensures
        r is Some <==> negotiated_image_count(*caps) <= u32::MAX,
        r is Some ==> r.unwrap() == negotiated_image_count(*caps),
{
    if caps.max_image_count > 0 && caps.min_image_count >= caps.max_image_count {
        Some(caps.max_image_count)
    } else if caps.min_image_count == u32::MAX {
        None
    } else {
        Some(caps.min_image_count + 1)
    }
}

/// What `negotiate` returns for a report, a list of formats, a list of
/// present modes and a drawable size.
pub open spec fn negotiation(
    caps: SurfaceCapabilities,
    formats: Seq<SurfaceFormat>,
    modes: Seq<i32>,
    drawable: Extent2D,
) -> Result<SwapchainPlan, SwapchainError> {
    if formats.len() == 0 {
        Err(SwapchainError::NoSurfaceFormat)
    } else if negotiated_image_count(caps) > u32::MAX {
        Err(SwapchainError::ImageCountOverflow)
    } else {
        Ok(
            SwapchainPlan {
                format: negotiated_format(formats),
                present_mode: negotiated_present_mode(modes),
                extent: negotiated_extent(caps, drawable),
                image_count: negotiated_image_count(caps) as u32,
                pre_transform: caps.current_transform,
            },
        )
    }
}

/// Negotiates format, present mode, extent and image count with a surface.
pub fn negotiate(
    caps: &SurfaceCapabilities,
    formats: &Vec<SurfaceFormat>,
    present_modes: &Vec<i32>,
    drawable: Extent2D,
) -> (r: Result<SwapchainPlan, SwapchainError>)
    ensures
        r == negotiation(*caps, formats@, present_modes@, drawable),
{
    let format = match choose_surface_format(formats) {
        Some(f) => f,
        None => {
            return Err(SwapchainError::NoSurfaceFormat);
        },
    };
    let image_count = match choose_image_count(caps) {
        Some(n) => n,
        None => {
            return Err(SwapchainError::ImageCountOverflow);
        },
    };
    Ok(
        SwapchainPlan {
            format,
            present_mode: choose_present_mode(present_modes),
            extent: choose_extent(caps, drawable),
            image_count,
            pre_transform: caps.current_transform,
        },
    )
}

/// For every valid capability report the negotiated extent lies within the
/// surface's limits, and it is the surface's current extent whenever that is
/// not the undefined one.
pub proof fn lemma_negotiated_extent_in_bounds(caps: SurfaceCapabilities, drawable: Extent2D)
    requires
        capabilities_valid(caps),
    ensures
        extent_within(
            negotiated_extent(caps, drawable),
            caps.min_image_extent,
            caps.max_image_extent,
        ),
        caps.current_extent.width != EXTENT_UNDEFINED ==> negotiated_extent(caps, drawable)
            == caps.current_extent,
{
}

/// The negotiated image count exceeds the surface's minimum by at most one
/// and never exceeds a maximum that the surface names.
pub proof fn lemma_negotiated_image_count_bounds(caps: SurfaceCapabilities)
    ensures
        negotiated_image_count(caps) <= caps.min_image_count + 1,
        caps.max_image_count > 0 ==> negotiated_image_count(caps) <= caps.max_image_count,
        caps.max_image_count == 0 || caps.min_image_count < caps.max_image_count
            ==> negotiated_image_count(caps) == caps.min_image_count + 1,
{
}

/// What an acquisition means for the frame.
#[derive(Clone, Copy, Debug, PartialEq, Eq, Structural)]
pub enum Acquired {
    /// The image at this index may be rendered into.
    Image(u32),
    /// The swapchain must be recreated; nothing may be rendered.
    Stale,
    /// Rendering cannot go on.
    Failed(ErrorKind),
}

/// What a presentation means for the frame.
#[derive(Clone, Copy, Debug, PartialEq, Eq, Structural)]
pub enum Presented {
    /// The image was handed to the surface and the swapchain still fits.
    Shown,
    /// The swapchain must be recreated.
    Stale,
    /// Rendering cannot go on.
    Failed(ErrorKind),
}

/// The meaning of what an acquisition returned, for a swapchain of
/// `image_count` images: a suboptimal result and the out-of-date code both
/// ask for recreation, whatever index came with them; an index that the
/// swapchain does not have counts as the loss of the device.
pub open spec fn acquisition(image_count: u32, outcome: Result<(u32, bool), i32>) -> Acquired {
    match outcome {
        Ok((index, suboptimal)) => if suboptimal {
            Acquired::Stale
        } else if index < image_count {
            Acquired::Image(index)
        } else {
            Acquired::Failed(ErrorKind::DeviceLost)
        },
        Err(code) => if status_of(code) == Status::Stale {
            Acquired::Stale
        } else {
            Acquired::Failed(frame_failure_of(code))
        },
    }
}

/// The meaning of what a presentation returned.
pub open spec fn presentation(outcome: Result<bool, i32>) -> Presented {
    match outcome {
        Ok(suboptimal) => if suboptimal {
            Presented::Stale
        } else {
            Presented::Shown
        },
        Err(code) => if status_of(code) == Status::Stale {
            Presented::Stale
        } else {
            Presented::Failed(frame_failure_of(code))
        },
    }
}

/// Reads what an acquisition returned.
pub fn interpret_acquisition(image_count: u32, outcome: Result<(u32, bool), i32>) -> (r: Acquired)
    ensures
        r == acquisition(image_count, outcome),
{
    match outcome {
        Ok((index, suboptimal)) => {
            if suboptimal {
                Acquired::Stale
            } else if index < image_count {
                Acquired::Image(index)
            } else {
                Acquired::Failed(ErrorKind::DeviceLost)
            }
        },
        Err(code) => {
            match classify(code) {
                Status::Stale => Acquired::Stale,
                _ => Acquired::Failed(frame_failure(code)),
            }
        },
    }
}

/// Reads what a presentation returned.
pub fn interpret_presentation(outcome: Result<bool, i32>) -> (r: Presented)
    ensures
        r == presentation(outcome),
{
    match outcome {
        Ok(suboptimal) => {
            if suboptimal {
                Presented::Stale
            } else {
                Presented::Shown
            }
        },
        Err(code) => {
            match classify(code) {
                Status::Stale => Presented::Stale,
                _ => Presented::Failed(frame_failure(code)),
            }
        },
    }
}

/// A swapchain with what is built on its images: one view and one
/// framebuffer for each image.
#[derive(Debug, PartialEq, Eq)]
pub struct Swapchain {
    pub surface: u64,
    pub surface_format: SurfaceFormat,
    pub surface_extent: Extent2D,
    pub present_mode: i32,
    pub swapchain: u64,
    pub image_count: u32,
    pub images: Vec<u64>,
    pub image_views: Vec<u64>,
    pub framebuffers: Vec<u64>,
}

/// Whether images, views and framebuffers can make up a swapchain for which
/// `requested` images were negotiated: they are equal in number, at least
/// one and at least as many as negotiated, and no more than the API counts.
pub open spec fn counts_agree(requested: u32, images: nat, views: nat, framebuffers: nat) -> bool {
    &&& images == views
    &&& images == framebuffers
    &&& images >= 1
    &&& images >= requested
    &&& images <= u32::MAX
}

impl Swapchain {
    /// The counts of images, views and framebuffers are equal to each other
    /// and to the image count, and there is an image.
    pub open spec fn wf(&self) -> bool {
        &&& self.image_count >= 1
        &&& self.images.len() == self.image_count
        &&& self.image_views.len() == self.image_count
        &&& self.framebuffers.len() == self.image_count
    }

    /// The state of a swapchain that was created from `plan`.
    ///
    /// The presentation engine may hand out more images than were asked
    /// for; the image count of the state is the number that it did hand
    /// out. Fails exactly when the three lists do not agree with each other
    /// and with the plan.
    pub fn new(
        surface: u64,
        plan: SwapchainPlan,
        swapchain: u64,
        images: Vec<u64>,
        image_views: Vec<u64>,
        framebuffers: Vec<u64>,
    ) -> (r: Result<Swapchain, SwapchainError>)
        ensures
            r is Ok <==> counts_agree(
                plan.image_count,
                images.len() as nat,
                image_views.len() as nat,
                framebuffers.len() as nat,
            ),
            r is Err ==> r == Err::<Swapchain, SwapchainError>(SwapchainError::CountMismatch),
            r is Ok ==> {
                let s = r.unwrap();
                &&& s.wf()
                &&& s.surface == surface
                &&& s.surface_format == plan.format
                &&& s.surface_extent == plan.extent
                &&& s.present_mode == plan.present_mode
                &&& s.swapchain == swapchain
                &&& s.image_count == images.len()
                &&& s.image_count >= plan.image_count
                &&& s.images == images
                &&& s.image_views == image_views
                &&& s.framebuffers == framebuffers
            },
    {
        let n = images.len();
        if n != image_views.len() || n != framebuffers.len() || n == 0 || n > 0xFFFF_FFFF {
            return Err(SwapchainError::CountMismatch);
        }
        let image_count = n as u32;
        if image_count < plan.image_count {
            return Err(SwapchainError::CountMismatch);
        }
        Ok(
            Swapchain {
                surface,
                surface_format: plan.format,
                surface_extent: plan.extent,
                present_mode: plan.present_mode,
                swapchain,
                image_count,
                images,
                image_views,
                framebuffers,
            },
        )
    }

    /// Whether the counts agree.
    pub fn is_well_formed(&self) -> (r: bool)
        ensures
            r == self.wf(),
    {
        let n = self.images.len();
        self.image_count >= 1 && n <= 0xFFFF_FFFF && n as u32 == self.image_count
            && self.image_views.len() == n && self.framebuffers.len() == n
    }

    /// Reads what the acquisition of the next image returned: the index of
    /// an image to render into, or that the swapchain is stale, or a
    /// failure.
    pub fn acquire_next_image(&self, outcome: Result<(u32, bool), i32>) -> (r: Acquired)
        ensures
            r == acquisition(self.image_count, outcome),
            self.wf() ==> (r is Image ==> r->Image_0 < self.images.len()),
    {
        interpret_acquisition(self.image_count, outcome)
    }

    /// Reads what the presentation of an image returned.
    pub fn queue_present(&self, outcome: Result<bool, i32>) -> (r: Presented)
        ensures
            r == presentation(outcome),
    {
        interpret_presentation(outcome)
    }
}

/// Whatever the acquisition returns, an image index that is handed on names
/// an image of the swapchain, and nothing is handed on when the result was
/// suboptimal or out of date.
pub proof fn lemma_acquired_image_exists(image_count: u32, outcome: Result<(u32, bool), i32>)
    ensures
        acquisition(image_count, outcome) is Image ==> {
            &&& outcome is Ok
            &&& !outcome->Ok_0.1
            &&& acquisition(image_count, outcome)->Image_0 == outcome->Ok_0.0
            &&& outcome->Ok_0.0 < image_count
        },
        outcome is Ok && outcome->Ok_0.1 ==> acquisition(image_count, outcome) == Acquired::Stale,
        outcome == Err::<(u32, bool), i32>(crate::status::ERROR_OUT_OF_DATE) ==> acquisition(
            image_count,
            outcome,
        ) == Acquired::Stale,
{
}

} // verus!
