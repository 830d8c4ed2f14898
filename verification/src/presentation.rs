//! What the renderer presents into: the window, the swapchain on its
//! native handle, the depth buffer with its view, the viewport, and the
//! index buffer of the one triangle.

use vstd::prelude::*;

verus! {

/// The width of the reference window, in pixels.
pub const WINDOW_WIDTH: u32 = 1080;

/// The height of the reference window, in pixels.
pub const WINDOW_HEIGHT: u32 = 720;

/// The number of bytes of one index.
pub const INDEX_SIZE: u32 = 4;

/// The layout of one element of a surface or a buffer.
#[derive(Clone, Copy, Debug, PartialEq, Eq, Structural)]
pub enum Format {
    /// Four normalised 8-bit channels: red, green, blue, alpha.
    Rgba8Unorm,
    /// One 32-bit floating-point depth, no stencil.
    D32Float,
    /// One 32-bit unsigned integer.
    R32Uint,
}

/// Multisampling of a surface.
#[derive(Clone, Copy, Debug, PartialEq, Eq, Structural)]
pub struct SampleDesc {
    pub count: u32,
    pub quality: u32,
}

/// What happens to a presented buffer.
#[derive(Clone, Copy, Debug, PartialEq, Eq, Structural)]
pub enum SwapEffect {
    Discard,
    Sequential,
    FlipSequential,
    FlipDiscard,
}

/// How a buffer is fitted to a target of another size.
#[derive(Clone, Copy, Debug, PartialEq, Eq, Structural)]
pub enum Scaling {
    Stretch,
    Unscaled,
    AspectRatioStretch,
}

/// How the alpha channel of the swapchain is read.
#[derive(Clone, Copy, Debug, PartialEq, Eq, Structural)]
pub enum AlphaMode {
    Unspecified,
    Premultiplied,
    Straight,
    Ignore,
}

/// Who may read and write a resource.
#[derive(Clone, Copy, Debug, PartialEq, Eq, Structural)]
pub enum Usage {
    /// Read and written by the GPU.
    Default,
    /// Read by the GPU, written by nobody once it is created.
    Immutable,
    Dynamic,
    Staging,
}

/// The pipeline slot a resource is bound to.
#[derive(Clone, Copy, Debug, PartialEq, Eq, Structural)]
pub enum Binding {
    IndexBuffer,
    DepthStencil,
}

/// How a depth-stencil view looks at its resource.
#[derive(Clone, Copy, Debug, PartialEq, Eq, Structural)]
pub enum ViewDimension {
    Texture2d,
}

/// One end of the depth range.
#[derive(Clone, Copy, Debug, PartialEq, Eq, Structural)]
pub enum Depth {
    /// Depth 0.
    Near,
    /// Depth 1, the farthest.
    Far,
}

/// The window the renderer draws into.
#[derive(Clone, Copy, Debug, PartialEq, Eq, Structural)]
pub struct WindowDesc {
    pub width: u32,
    pub height: u32,
    pub allow_high_dpi: bool,
    pub centered: bool,
}

/// The native handle of a window, as far as the renderer tells handles
/// apart.
#[derive(Clone, Copy, Debug, PartialEq, Eq, Structural)]
pub enum NativeHandle {
    Win32 { hwnd: isize },
    Other,
}

/// A swapchain on a window.
#[derive(Clone, Copy, Debug, PartialEq, Eq, Structural)]
pub struct SwapChainDesc {
    pub width: u32,
    pub height: u32,
    pub format: Format,
    pub stereo: bool,
    pub sample: SampleDesc,
    /// The buffers are render targets.
    pub render_target_output: bool,
    pub buffer_count: u32,
    pub scaling: Scaling,
    pub swap_effect: SwapEffect,
    pub alpha_mode: AlphaMode,
    pub flags: u32,
}

/// A two-dimensional texture.
#[derive(Clone, Copy, Debug, PartialEq, Eq, Structural)]
pub struct Texture2dDesc {
    pub width: u32,
    pub height: u32,
    pub mip_levels: u32,
    pub array_size: u32,
    pub format: Format,
    pub sample: SampleDesc,
    pub usage: Usage,
    pub binding: Binding,
    pub cpu_read: bool,
    pub cpu_write: bool,
    pub misc_flags: u32,
}

/// A depth-stencil view of a texture.
#[derive(Clone, Copy, Debug, PartialEq, Eq, Structural)]
pub struct DepthStencilViewDesc {
    pub format: Format,
    pub dimension: ViewDimension,
    pub flags: u32,
    pub mip_slice: u32,
}

/// A buffer.
#[derive(Clone, Copy, Debug, PartialEq, Eq, Structural)]
pub struct BufferDesc {
    pub byte_width: u32,
    pub usage: Usage,
    pub binding: Binding,
    pub cpu_read: bool,
    pub cpu_write: bool,
    pub misc_flags: u32,
    pub structure_byte_stride: u32,
}

/// The rectangle of the render target that clip space is mapped to, in
/// whole pixels, with its depth range.
#[derive(Clone, Copy, Debug, PartialEq, Eq, Structural)]
pub struct Viewport {
    pub top_left_x: u32,
    pub top_left_y: u32,
    pub width: u32,
    pub height: u32,
    pub min_depth: Depth,
    pub max_depth: Depth,
}

/// One sample per pixel.
pub open spec fn single_sample() -> SampleDesc {
    SampleDesc { count: 1, quality: 0 }
}

/// The title of the window.
pub open spec fn window_title_spec() -> Seq<char> {
    "serenity-engine"@
}

/// A centred window of the given size that allows high-DPI drawing.
pub open spec fn window_desc_for(width: u32, height: u32) -> WindowDesc {
    WindowDesc { width, height, allow_high_dpi: true, centered: true }
}

/// Two 8-bit colour buffers of the window's size, flipped and discarded
/// on present, without multisampling.
pub open spec fn swap_chain_desc_for(width: u32, height: u32) -> SwapChainDesc {
    SwapChainDesc {
        width,
        height,
        format: Format::Rgba8Unorm,
        stereo: false,
        sample: single_sample(),
        render_target_output: true,
        buffer_count: 2,
        scaling: Scaling::Stretch,
        swap_effect: SwapEffect::FlipDiscard,
        alpha_mode: AlphaMode::Unspecified,
        flags: 0,
    }
}

/// A single-sample 32-bit depth texture of the window's size.
pub open spec fn depth_texture_desc_for(width: u32, height: u32) -> Texture2dDesc {
    Texture2dDesc {
        width,
        height,
        mip_levels: 1,
        array_size: 1,
        format: Format::D32Float,
        sample: single_sample(),
        usage: Usage::Default,
        binding: Binding::DepthStencil,
        cpu_read: false,
        cpu_write: false,
        misc_flags: 0,
    }
}

/// A plain two-dimensional view of the depth texture's one mip level.
pub open spec fn depth_stencil_view_desc_spec() -> DepthStencilViewDesc {
    DepthStencilViewDesc {
        format: Format::D32Float,
        dimension: ViewDimension::Texture2d,
        flags: 0,
        mip_slice: 0,
    }
}

/// The whole window, over the full depth range.
pub open spec fn viewport_for(width: u32, height: u32) -> Viewport {
    Viewport {
        top_left_x: 0,
        top_left_y: 0,
        width,
        height,
        min_depth: Depth::Near,
        max_depth: Depth::Far,
    }
}

/// The indices of the one triangle.
pub open spec fn triangle_indices() -> Seq<u32> {
    seq![0u32, 1u32, 2u32]
}

/// An immutable index buffer that holds exactly `indices`.
pub open spec fn index_buffer_desc_for(indices: Seq<u32>) -> BufferDesc {
    BufferDesc {
        byte_width: (indices.len() * INDEX_SIZE) as u32,
        usage: Usage::Immutable,
        binding: Binding::IndexBuffer,
        cpu_read: false,
        cpu_write: false,
        misc_flags: 0,
        structure_byte_stride: 0,
    }
}

/// The window handle a swapchain can be created on.
pub open spec fn resolved_hwnd(handle: NativeHandle) -> Option<isize> {
    match handle {
        NativeHandle::Win32 { hwnd } => Some(hwnd),
        NativeHandle::Other => None,
    }
}

/// The window of the given size.
pub fn window_desc(width: u32, height: u32) -> (desc: WindowDesc)
    ensures
        desc == window_desc_for(width, height),
{
    WindowDesc { width, height, allow_high_dpi: true, centered: true }
}

/// The title of the window.
pub fn window_title() -> (title: &'static str)
    ensures
        title@ == window_title_spec(),
{
    "serenity-engine"
}

/// The swapchain for a window of the given size.
pub fn swap_chain_desc(width: u32, height: u32) -> (desc: SwapChainDesc)
    ensures
        desc == swap_chain_desc_for(width, height),
        desc.width == width,
        desc.height == height,
{
    SwapChainDesc {
        width,
        height,
        format: Format::Rgba8Unorm,
        stereo: false,
        sample: SampleDesc { count: 1, quality: 0 },
        render_target_output: true,
        buffer_count: 2,
        scaling: Scaling::Stretch,
        swap_effect: SwapEffect::FlipDiscard,
        alpha_mode: AlphaMode::Unspecified,
        flags: 0,
    }
}

/// The depth texture for a window of the given size.
pub fn depth_texture_desc(width: u32, height: u32) -> (desc: Texture2dDesc)
    ensures
        desc == depth_texture_desc_for(width, height),
        desc.width == width,
        desc.height == height,
{
    Texture2dDesc {
        width,
        height,
        mip_levels: 1,
        array_size: 1,
        format: Format::D32Float,
        sample: SampleDesc { count: 1, quality: 0 },
        usage: Usage::Default,
        binding: Binding::DepthStencil,
        cpu_read: false,
        cpu_write: false,
        misc_flags: 0,
    }
}

/// The view of the depth texture.
pub fn depth_stencil_view_desc() -> (desc: DepthStencilViewDesc)
    ensures
        desc == depth_stencil_view_desc_spec(),
{
    DepthStencilViewDesc {
        format: Format::D32Float,
        dimension: ViewDimension::Texture2d,
        flags: 0,
        mip_slice: 0,
    }
}

/// The viewport for a window of the given size.
pub fn viewport(width: u32, height: u32) -> (v: Viewport)
    ensures
        v == viewport_for(width, height),
{
    Viewport {
        top_left_x: 0,
        top_left_y: 0,
        width,
        height,
        min_depth: Depth::Near,
        max_depth: Depth::Far,
    }
}

/// The index data of the triangle: `0, 1, 2`.
pub fn index_data() -> (indices: Vec<u32>)
    ensures
        indices@ == triangle_indices(),
{
    let mut indices: Vec<u32> = Vec::new();
    indices.push(0);
    indices.push(1);
    indices.push(2);
    indices
}

/// The descriptor of an immutable buffer that holds `indices`, or `None`
/// where their size in bytes does not fit the descriptor.
pub fn index_buffer_desc(indices: &Vec<u32>) -> (r: Option<BufferDesc>)
    ensures
        r is Some <==> indices.len() * INDEX_SIZE <= u32::MAX,
        r matches Some(desc) ==> desc == index_buffer_desc_for(indices@) && desc.byte_width
            == indices.len() * INDEX_SIZE,
{
    let count = indices.len();
    if count > (u32::MAX / INDEX_SIZE) as usize {
        return None;
    }
    let byte_width: u32 = (count as u32) * INDEX_SIZE;
    Some(
        BufferDesc {
            byte_width,
            usage: Usage::Immutable,
            binding: Binding::IndexBuffer,
            cpu_read: false,
            cpu_write: false,
            misc_flags: 0,
            structure_byte_stride: 0,
        },
    )
}

/// Resolves the window's native handle to the handle a swapchain is
/// created on: `None` for a window of another platform.
pub fn resolve_window_handle(handle: NativeHandle) -> (r: Option<isize>)
    ensures
        r == resolved_hwnd(handle),
{
    match handle {
        NativeHandle::Win32 { hwnd } => Some(hwnd),
        NativeHandle::Other => None,
    }
}

/// The swapchain, the depth texture and the viewport of a window all have
/// the window's width and height.
pub proof fn lemma_targets_have_window_size(width: u32, height: u32)
    ensures
        swap_chain_desc_for(width, height).width == width,
        swap_chain_desc_for(width, height).height == height,
        depth_texture_desc_for(width, height).width == width,
        depth_texture_desc_for(width, height).height == height,
        viewport_for(width, height).width == width,
        viewport_for(width, height).height == height,
        viewport_for(width, height).top_left_x == 0,
        viewport_for(width, height).top_left_y == 0,
{
}

/// The index buffer of the triangle holds `0, 1, 2`, takes three times
/// the size of an index, and cannot be written or mapped once created.
pub proof fn lemma_triangle_index_buffer()
    ensures
        triangle_indices() == seq![0u32, 1u32, 2u32],
        index_buffer_desc_for(triangle_indices()).byte_width == 3 * INDEX_SIZE,
        index_buffer_desc_for(triangle_indices()).byte_width == 12,
        index_buffer_desc_for(triangle_indices()).usage == Usage::Immutable,
        !index_buffer_desc_for(triangle_indices()).cpu_read,
        !index_buffer_desc_for(triangle_indices()).cpu_write,
{
}

} // verus!
