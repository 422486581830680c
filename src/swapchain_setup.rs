use vstd::prelude::*;

verus! {

/// `VK_FORMAT_R8G8B8A8_UNORM`.
pub const FORMAT_R8G8B8A8_UNORM: u32 = 37;

/// `VK_FORMAT_B8G8R8A8_UNORM`.
pub const FORMAT_B8G8R8A8_UNORM: u32 = 44;

/// `VK_COLOR_SPACE_SRGB_NONLINEAR_KHR`.
pub const COLOR_SPACE_SRGB_NONLINEAR: u32 = 0;

/// One (image format, color space) pair that a surface supports, both given
/// by their Vulkan enumeration values.
#[derive(Clone, Copy, Debug, PartialEq, Eq, Structural)]
pub struct SurfaceFormat {
    pub format: u32,
    pub color_space: u32,
}

/// 8-bit RGBA or BGRA with the non-linear sRGB color space.
pub open spec fn is_preferred_format(f: SurfaceFormat) -> bool {
    (f.format == FORMAT_R8G8B8A8_UNORM || f.format == FORMAT_B8G8R8A8_UNORM) && f.color_space
        == COLOR_SPACE_SRGB_NONLINEAR
}

/// Entry `i` is preferred and no earlier entry is.
pub open spec fn first_preferred_at(formats: Seq<SurfaceFormat>, i: int) -> bool {
    &&& 0 <= i < formats.len()
    &&& is_preferred_format(formats[i])
    &&& forall|j: int| 0 <= j < i ==> !is_preferred_format(#[trigger] formats[j])
}

/// Some entry is preferred.
pub open spec fn has_preferred_format(formats: Seq<SurfaceFormat>) -> bool {
    exists|i: int| 0 <= i < formats.len() && is_preferred_format(#[trigger] formats[i])
}

/// The format to use: the first preferred entry when there is one, else the
/// first entry.
pub open spec fn best_surface_format(formats: Seq<SurfaceFormat>) -> SurfaceFormat {
    if has_preferred_format(formats) {
        formats[choose|i: int| first_preferred_at(formats, i)]
    } else {
        formats[0]
    }
}

/// The presentation modes of Vulkan.
#[derive(Clone, Copy, Debug, PartialEq, Eq, Structural)]
pub enum PresentMode {
    Immediate,
    Mailbox,
    Fifo,
    Relaxed,
}

/// Which presentation modes a surface supports.
#[derive(Clone, Copy, Debug, PartialEq, Eq, Structural)]
pub struct SupportedPresentModes {
    pub immediate: bool,
    pub mailbox: bool,
    pub fifo: bool,
    pub relaxed: bool,
    pub shared_demand: bool,
    pub shared_continuous: bool,
}

/// How a presented image is composited with what lies behind the window.
#[derive(Clone, Copy, Debug, PartialEq, Eq, Structural)]
pub enum CompositeAlpha {
    Opaque,
    PreMultiplied,
    PostMultiplied,
    Inherit,
}

/// Which compositing modes a surface supports.
#[derive(Clone, Copy, Debug, PartialEq, Eq, Structural)]
pub struct SupportedCompositeAlpha {
    pub opaque: bool,
    pub pre_multiplied: bool,
    pub post_multiplied: bool,
    pub inherit: bool,
}

impl SupportedCompositeAlpha {
    pub open spec fn any(self) -> bool {
        self.opaque || self.pre_multiplied || self.post_multiplied || self.inherit
    }
}

/// The first supported compositing mode, in the order opaque,
/// pre-multiplied, post-multiplied, inherit.
pub open spec fn first_composite_alpha(s: SupportedCompositeAlpha) -> Option<CompositeAlpha> {
    if s.opaque {
        Some(CompositeAlpha::Opaque)
    } else if s.pre_multiplied {
        Some(CompositeAlpha::PreMultiplied)
    } else if s.post_multiplied {
        Some(CompositeAlpha::PostMultiplied)
    } else if s.inherit {
        Some(CompositeAlpha::Inherit)
    } else {
        None
    }
}

/// What a surface reports about the swap chains it accepts.
#[derive(Clone, Debug)]
pub struct SurfaceCapabilities {
    pub min_image_count: u32,
    pub max_image_count: Option<u32>,
    pub min_image_extent: [u32; 2],
    pub max_image_extent: [u32; 2],
    pub supported_composite_alpha: SupportedCompositeAlpha,
    pub supported_formats: Vec<SurfaceFormat>,
    pub present_modes: SupportedPresentModes,
}

/// Whether the swap chain images are owned by one queue or shared.
#[derive(Clone, Debug)]
pub enum SharingMode {
    Exclusive,
    Concurrent(Vec<u32>),
}

/// Everything decided about a swap chain before it is created.
#[derive(Clone, Debug)]
pub struct SwapchainPlan {
    pub image_count: u32,
    pub surface_format: SurfaceFormat,
    pub present_mode: PresentMode,
    pub dimensions: [u32; 2],
    pub composite_alpha: CompositeAlpha,
    pub sharing_mode: SharingMode,
}

/// One more image than the minimum, lowered to the maximum when there is one
/// and it is smaller.
pub open spec fn image_count_spec(min_image_count: u32, max_image_count: Option<u32>) -> int {
    match max_image_count {
        Some(max) => if (max as int) < min_image_count + 1 {
            max as int
        } else {
            min_image_count + 1
        },
        None => min_image_count + 1,
    }
}

/// The window size on one axis, brought within the surface's bounds; the
/// lower bound wins where the bounds cross.
pub open spec fn clamp_spec(lo: u32, hi: u32, v: u32) -> u32 {
    let inner = if hi < v {
        hi
    } else {
        v
    };
    if lo > inner {
        lo
    } else {
        inner
    }
}

/// Prefers 8-bit RGBA or BGRA non-linear sRGB, the first such entry; falls
/// back to the first format the surface reports.
pub fn choose_best_surface_format(available_formats: &Vec<SurfaceFormat>) -> (r: SurfaceFormat)
    requires
        available_formats@.len() > 0,
    ensures
        r == best_surface_format(available_formats@),
        has_preferred_format(available_formats@) ==> (exists|i: int|
            first_preferred_at(available_formats@, i) && r == available_formats@[i]),
        !has_preferred_format(available_formats@) ==> r == available_formats@[0],
{
    let mut i: usize = 0;
    while i < available_formats.len()
        invariant
            0 <= i <= available_formats@.len(),
            forall|j: int| 0 <= j < i ==> !is_preferred_format(#[trigger] available_formats@[j]),
        decreases available_formats@.len() - i,
    {
        let f = available_formats[i];
        if (f.format == FORMAT_R8G8B8A8_UNORM || f.format == FORMAT_B8G8R8A8_UNORM) && f.color_space
            == COLOR_SPACE_SRGB_NONLINEAR {
            proof {
                let k = i as int;
                assert(first_preferred_at(available_formats@, k));
                let c = choose|c: int| first_preferred_at(available_formats@, c);
                if c < k {
                    assert(!is_preferred_format(available_formats@[c]));
                } else if k < c {
                    assert(!is_preferred_format(available_formats@[k]));
                }
            }
            return f;
        }
        i = i + 1;
    }
    available_formats[0]
}

/// Mailbox when the surface supports it, FIFO (which every surface
/// supports) otherwise.
pub fn choose_best_presentation_mode(supported_modes: SupportedPresentModes) -> (r: PresentMode)
    ensures
        supported_modes.mailbox ==> r == PresentMode::Mailbox,
        !supported_modes.mailbox ==> r == PresentMode::Fifo,
{
    if supported_modes.mailbox {
        return PresentMode::Mailbox;
    }
    PresentMode::Fifo
}

/// The number of swap chain images to ask for.
pub fn choose_image_count(min_image_count: u32, max_image_count: Option<u32>) -> (r: u32)
    requires
        max_image_count is Some || min_image_count < u32::MAX,
    ensures
        r == image_count_spec(min_image_count, max_image_count),
{
    match max_image_count {
        Some(max) => if max <= min_image_count {
            max
        } else {
            min_image_count + 1
        },
        None => min_image_count + 1,
    }
}

/// The compositing mode to use: the first one the surface supports.
pub fn choose_composite_alpha(supported: SupportedCompositeAlpha) -> (r: Option<CompositeAlpha>)
    ensures
        r == first_composite_alpha(supported),
{
    if supported.opaque {
        Some(CompositeAlpha::Opaque)
    } else if supported.pre_multiplied {
        Some(CompositeAlpha::PreMultiplied)
    } else if supported.post_multiplied {
        Some(CompositeAlpha::PostMultiplied)
    } else if supported.inherit {
        Some(CompositeAlpha::Inherit)
    } else {
        None
    }
}

fn clamp_axis(lo: u32, hi: u32, v: u32) -> (r: u32)
    ensures
        r == clamp_spec(lo, hi, v),
{
    let inner: u32 = if hi < v {
        hi
    } else {
        v
    };
    if lo > inner {
        lo
    } else {
        inner
    }
}

/// The image extent: the window's inner size clamped, axis by axis, between
/// the surface's minimum and maximum extents.
pub fn choose_extent(window_size: [u32; 2], min_extent: [u32; 2], max_extent: [u32; 2]) -> (r: [u32;
    2])
    ensures
        r@[0] == clamp_spec(min_extent@[0], max_extent@[0], window_size@[0]),
        r@[1] == clamp_spec(min_extent@[1], max_extent@[1], window_size@[1]),
{
    let width = clamp_axis(min_extent[0], max_extent[0], window_size[0]);
    let height = clamp_axis(min_extent[1], max_extent[1], window_size[1]);
    [width, height]
}

/// Exclusive ownership when exactly one queue uses the images, concurrent
/// sharing among all of them otherwise.
pub fn choose_sharing_mode(queue_ids: Vec<u32>) -> (r: SharingMode)
    ensures
        queue_ids@.len() == 1 ==> r is Exclusive,
        queue_ids@.len() != 1 ==> (r matches SharingMode::Concurrent(ids) && ids@ == queue_ids@),
{
    if queue_ids.len() == 1 {
        SharingMode::Exclusive
    } else {
        SharingMode::Concurrent(queue_ids)
    }
}

/// Settles every parameter of the swap chain from the surface's
/// capabilities, the window's inner size and the ids of the queues that
/// will use it.
pub fn negotiate_swapchain(
    capabilities: &SurfaceCapabilities,
    window_size: [u32; 2],
    queue_ids: Vec<u32>,
) -> (r: SwapchainPlan)
    requires
        capabilities.supported_formats@.len() > 0,
        capabilities.supported_composite_alpha.any(),
        capabilities.max_image_count is Some || capabilities.min_image_count < u32::MAX,
    ensures
        r.image_count == image_count_spec(
            capabilities.min_image_count,
            capabilities.max_image_count,
        ),
        r.surface_format == best_surface_format(capabilities.supported_formats@),
        r.present_mode == (if capabilities.present_modes.mailbox {
            PresentMode::Mailbox
        } else {
            PresentMode::Fifo
        }),
        r.dimensions@[0] == clamp_spec(
            capabilities.min_image_extent@[0],
            capabilities.max_image_extent@[0],
            window_size@[0],
        ),
        r.dimensions@[1] == clamp_spec(
            capabilities.min_image_extent@[1],
            capabilities.max_image_extent@[1],
            window_size@[1],
        ),
        Some(r.composite_alpha) == first_composite_alpha(capabilities.supported_composite_alpha),
        queue_ids@.len() == 1 ==> r.sharing_mode is Exclusive,
        queue_ids@.len() != 1 ==> (r.sharing_mode matches SharingMode::Concurrent(ids) && ids@
            == queue_ids@),
{
    let surface_format = choose_best_surface_format(&capabilities.supported_formats);
    let present_mode = choose_best_presentation_mode(capabilities.present_modes);
    let image_count = choose_image_count(
        capabilities.min_image_count,
        capabilities.max_image_count,
    );
    let composite_alpha = match choose_composite_alpha(capabilities.supported_composite_alpha) {
        Some(alpha) => alpha,
        None => CompositeAlpha::Opaque,
    };
    let dimensions = choose_extent(
        window_size,
        capabilities.min_image_extent,
        capabilities.max_image_extent,
    );
    let sharing_mode = choose_sharing_mode(queue_ids);
    SwapchainPlan {
        image_count,
        surface_format,
        present_mode,
        dimensions,
        composite_alpha,
        sharing_mode,
    }
}

} // verus!
