//! The renderer as a state machine. The engine decides; its driver acts.
//! Each step takes the response to the last request and gives the next
//! request: the bootstrap operations once, strictly in order, then poll and
//! render in turn until the input asks to quit or an operation fails.

use crate::device::adapter_query;
use crate::device::adapter_query_spec;
use crate::device::device_desc;
use crate::device::device_desc_for;
use crate::device::factory_desc;
use crate::device::factory_desc_for;
use crate::device::AdapterQuery;
use crate::device::DeviceDesc;
use crate::device::FactoryDesc;
use crate::device::Severity;
use crate::encoding::decode_wide;
use crate::encoding::has_interior_nul;
use crate::encoding::nul_unit_position;
use crate::encoding::utf16_decode;
use crate::frame::frame_commands;
use crate::frame::frame_commands_for;
use crate::frame::present_params;
use crate::frame::present_params_spec;
use crate::frame::present_succeeded;
use crate::frame::state_after;
use crate::frame::InputEvent;
use crate::frame::LoopState;
use crate::frame::PresentParams;
use crate::frame::RenderCommand;
use crate::frame::PRESENT_OK;
use crate::presentation::depth_stencil_view_desc;
use crate::presentation::depth_stencil_view_desc_spec;
use crate::presentation::depth_texture_desc;
use crate::presentation::depth_texture_desc_for;
use crate::presentation::index_buffer_desc;
use crate::presentation::index_buffer_desc_for;
use crate::presentation::index_data;
use crate::presentation::resolve_window_handle;
use crate::presentation::resolved_hwnd;
use crate::presentation::swap_chain_desc;
use crate::presentation::swap_chain_desc_for;
use crate::presentation::triangle_indices;
use crate::presentation::viewport;
use crate::presentation::viewport_for;
use crate::presentation::window_desc;
use crate::presentation::window_desc_for;
use crate::presentation::window_title;
use crate::presentation::window_title_spec;
use crate::presentation::BufferDesc;
use crate::presentation::DepthStencilViewDesc;
use crate::presentation::NativeHandle;
use crate::presentation::SwapChainDesc;
use crate::presentation::Texture2dDesc;
use crate::presentation::WindowDesc;
use crate::presentation::WINDOW_HEIGHT;
use crate::presentation::WINDOW_WIDTH;
use crate::shader::compile_failure_text;
use crate::shader::compile_request_for;
use crate::shader::compile_result;
use crate::shader::create_failure_text;
use crate::shader::create_pixel_shader;
use crate::shader::create_vertex_shader;
use crate::shader::diagnostic_of;
use crate::shader::finish_compile;
use crate::shader::shader_error_text;
use crate::shader::CompileOutcome;
use crate::shader::CompileOutcomeView;
use crate::shader::CompileRequest;
use crate::shader::CompileRequestView;
use crate::shader::ShaderError;
use crate::shader::ShaderErrorView;
use crate::shader::ShaderStage;
use vstd::prelude::*;

verus! {

/// What a run is set up with.
#[derive(Clone, Debug, PartialEq, Eq)]
pub struct Config {
    /// The width of the window's client area, in pixels.
    pub width: u32,
    /// The height of the window's client area, in pixels.
    pub height: u32,
    /// The file that holds both shader entry points.
    pub shader_path: String,
    /// Whether this is a debug build.
    pub debug: bool,
}

/// The mathematical content of a `Config`.
pub struct ConfigView {
    pub width: u32,
    pub height: u32,
    pub shader_path: Seq<char>,
    pub debug: bool,
}

impl View for Config {
    type V = ConfigView;

    open spec fn view(&self) -> ConfigView {
        ConfigView {
            width: self.width,
            height: self.height,
            shader_path: self.shader_path@,
            debug: self.debug,
        }
    }
}

/// One operation that the driver performs for the engine.
#[derive(Clone, Copy, Debug, PartialEq, Eq, Structural)]
pub enum Operation {
    InitWindowing,
    OpenVideo,
    CreateWindow,
    OpenEventPump,
    CreateFactory,
    SelectAdapter,
    DescribeAdapter,
    AnnounceAdapter,
    CreateDevice,
    AcquireDevice,
    UpgradeDevice,
    AcquireContext,
    UpgradeContext,
    DebugController,
    InfoQueue,
    BreakOnSeverity(Severity),
    ResolveWindowHandle,
    CreateSwapchain,
    GetBackBuffer,
    CreateRenderTargetView,
    CreateDepthTexture,
    CreateDepthStencilView,
    CreateIndexBuffer,
    CompileShader(ShaderStage),
    CreateShader(ShaderStage),
    PollEvents,
    RenderFrame,
}

/// Where a run stands.
#[derive(Clone, Copy, Debug, PartialEq, Eq, Structural)]
pub enum Phase {
    /// The driver performs this operation; its response is awaited.
    Awaiting(Operation),
    /// The input asked to quit.
    Terminated,
    /// An operation failed.
    Failed,
}

/// The classes of fatal errors.
#[derive(Clone, Copy, Debug, PartialEq, Eq, Structural)]
pub enum ErrorKind {
    /// The environment cannot be set up.
    Setup,
    /// A shader does not compile.
    ShaderCompilation,
    /// A frame cannot be submitted or presented.
    Runtime,
}

/// Why a run was aborted.
#[derive(Clone, Debug, PartialEq, Eq)]
pub enum Failure {
    /// The driver could not perform the operation.
    Operation(Operation),
    /// A shader could not be made.
    Shader(ShaderError),
    /// The present of a frame returned this status.
    Present { status: i32 },
}

/// The mathematical content of a `Failure`.
pub enum FailureView {
    Operation(Operation),
    Shader(ShaderErrorView),
    Present { status: i32 },
}

impl View for Failure {
    type V = FailureView;

    open spec fn view(&self) -> FailureView {
        match *self {
            Failure::Operation(op) => FailureView::Operation(op),
            Failure::Shader(error) => FailureView::Shader(error@),
            Failure::Present { status } => FailureView::Present { status },
        }
    }
}

/// What the engine asks of its driver.
#[allow(inconsistent_fields)]
#[derive(Clone, Debug, PartialEq, Eq)]
pub enum Request {
    InitWindowing,
    OpenVideo,
    CreateWindow { title: &'static str, desc: WindowDesc },
    OpenEventPump,
    CreateFactory(FactoryDesc),
    SelectAdapter(AdapterQuery),
    /// Read the adapter's description, up to 128 UTF-16 units.
    DescribeAdapter,
    /// Print the adapter's description.
    AnnounceAdapter { description: String },
    CreateDevice(DeviceDesc),
    AcquireDevice,
    UpgradeDevice,
    AcquireContext,
    UpgradeContext,
    DebugController,
    InfoQueue,
    BreakOnSeverity(Severity),
    ResolveWindowHandle,
    CreateSwapchain { hwnd: isize, desc: SwapChainDesc },
    GetBackBuffer { index: u32 },
    CreateRenderTargetView,
    CreateDepthTexture(Texture2dDesc),
    CreateDepthStencilView(DepthStencilViewDesc),
    CreateIndexBuffer { desc: BufferDesc, indices: Vec<u32> },
    CompileShader(CompileRequest),
    CreateShader { stage: ShaderStage, bytecode: Vec<u8> },
    /// Drain the pending events without blocking.
    PollEvents,
    /// Record `commands` in order, then present.
    RenderFrame { commands: Vec<RenderCommand>, present: PresentParams },
    /// Leave the loop and end the program normally.
    Exit,
    /// Report the failure and end the program at once.
    Abort(Failure),
    /// The run had ended before this step.
    Halted,
}

/// The mathematical content of a `Request`.
#[allow(inconsistent_fields)]
pub enum RequestView {
    InitWindowing,
    OpenVideo,
    CreateWindow { title: Seq<char>, desc: WindowDesc },
    OpenEventPump,
    CreateFactory(FactoryDesc),
    SelectAdapter(AdapterQuery),
    DescribeAdapter,
    AnnounceAdapter { description: Seq<char> },
    CreateDevice(DeviceDesc),
    AcquireDevice,
    UpgradeDevice,
    AcquireContext,
    UpgradeContext,
    DebugController,
    InfoQueue,
    BreakOnSeverity(Severity),
    ResolveWindowHandle,
    CreateSwapchain { hwnd: isize, desc: SwapChainDesc },
    GetBackBuffer { index: u32 },
    CreateRenderTargetView,
    CreateDepthTexture(Texture2dDesc),
    CreateDepthStencilView(DepthStencilViewDesc),
    CreateIndexBuffer { desc: BufferDesc, indices: Seq<u32> },
    CompileShader(CompileRequestView),
    CreateShader { stage: ShaderStage, bytecode: Seq<u8> },
    PollEvents,
    RenderFrame { commands: Seq<RenderCommand>, present: PresentParams },
    Exit,
    Abort(FailureView),
    Halted,
}

impl View for Request {
    type V = RequestView;

    open spec fn view(&self) -> RequestView {
        match *self {
            Request::InitWindowing => RequestView::InitWindowing,
            Request::OpenVideo => RequestView::OpenVideo,
            Request::CreateWindow { title, desc } => RequestView::CreateWindow {
                title: title@,
                desc,
            },
            Request::OpenEventPump => RequestView::OpenEventPump,
            Request::CreateFactory(desc) => RequestView::CreateFactory(desc),
            Request::SelectAdapter(query) => RequestView::SelectAdapter(query),
            Request::DescribeAdapter => RequestView::DescribeAdapter,
            Request::AnnounceAdapter { description } => RequestView::AnnounceAdapter {
                description: description@,
            },
            Request::CreateDevice(desc) => RequestView::CreateDevice(desc),
            Request::AcquireDevice => RequestView::AcquireDevice,
            Request::UpgradeDevice => RequestView::UpgradeDevice,
            Request::AcquireContext => RequestView::AcquireContext,
            Request::UpgradeContext => RequestView::UpgradeContext,
            Request::DebugController => RequestView::DebugController,
            Request::InfoQueue => RequestView::InfoQueue,
            Request::BreakOnSeverity(severity) => RequestView::BreakOnSeverity(severity),
            Request::ResolveWindowHandle => RequestView::ResolveWindowHandle,
            Request::CreateSwapchain { hwnd, desc } => RequestView::CreateSwapchain { hwnd, desc },
            Request::GetBackBuffer { index } => RequestView::GetBackBuffer { index },
            Request::CreateRenderTargetView => RequestView::CreateRenderTargetView,
            Request::CreateDepthTexture(desc) => RequestView::CreateDepthTexture(desc),
            Request::CreateDepthStencilView(desc) => RequestView::CreateDepthStencilView(desc),
            Request::CreateIndexBuffer { desc, indices } => RequestView::CreateIndexBuffer {
                desc,
                indices: indices@,
            },
            Request::CompileShader(request) => RequestView::CompileShader(request@),
            Request::CreateShader { stage, bytecode } => RequestView::CreateShader {
                stage,
                bytecode: bytecode@,
            },
            Request::PollEvents => RequestView::PollEvents,
            Request::RenderFrame { commands, present } => RequestView::RenderFrame {
                commands: commands@,
                present,
            },
            Request::Exit => RequestView::Exit,
            Request::Abort(failure) => RequestView::Abort(failure@),
            Request::Halted => RequestView::Halted,
        }
    }
}

/// What the driver reports of the operation it performed.
#[derive(Clone, Debug, PartialEq, Eq)]
pub enum Response {
    /// The operation succeeded and has nothing to report.
    Completed,
    /// The operation failed.
    Failed,
    /// The description of the adapter, in UTF-16.
    AdapterDescription(Vec<u16>),
    /// The native handle of the window.
    WindowHandle(NativeHandle),
    /// The answer of the shader compiler.
    Compiled(CompileOutcome),
    /// The events that were pending, oldest first.
    Events(Vec<InputEvent>),
    /// The frame was recorded; the present returned this status.
    Presented(i32),
}

/// The mathematical content of a `Response`.
pub enum ResponseView {
    Completed,
    Failed,
    AdapterDescription(Seq<u16>),
    WindowHandle(NativeHandle),
    Compiled(CompileOutcomeView),
    Events(Seq<InputEvent>),
    Presented(i32),
}

impl View for Response {
    type V = ResponseView;

    open spec fn view(&self) -> ResponseView {
        match *self {
            Response::Completed => ResponseView::Completed,
            Response::Failed => ResponseView::Failed,
            Response::AdapterDescription(units) => ResponseView::AdapterDescription(units@),
            Response::WindowHandle(handle) => ResponseView::WindowHandle(handle),
            Response::Compiled(outcome) => ResponseView::Compiled(outcome@),
            Response::Events(events) => ResponseView::Events(events@),
            Response::Presented(status) => ResponseView::Presented(status),
        }
    }
}

/// The operation that follows `op` once `op` has succeeded and the loop
/// goes on. The validation layer is set up in debug builds only.
pub open spec fn successor(debug: bool, op: Operation) -> Operation {
    match op {
        Operation::InitWindowing => Operation::OpenVideo,
        Operation::OpenVideo => Operation::CreateWindow,
        Operation::CreateWindow => Operation::OpenEventPump,
        Operation::OpenEventPump => Operation::CreateFactory,
        Operation::CreateFactory => Operation::SelectAdapter,
        Operation::SelectAdapter => Operation::DescribeAdapter,
        Operation::DescribeAdapter => Operation::AnnounceAdapter,
        Operation::AnnounceAdapter => Operation::CreateDevice,
        Operation::CreateDevice => Operation::AcquireDevice,
        Operation::AcquireDevice => Operation::UpgradeDevice,
        Operation::UpgradeDevice => Operation::AcquireContext,
        Operation::AcquireContext => Operation::UpgradeContext,
        Operation::UpgradeContext => if debug {
            Operation::DebugController
        } else {
            Operation::ResolveWindowHandle
        },
        Operation::DebugController => Operation::InfoQueue,
        Operation::InfoQueue => Operation::BreakOnSeverity(Severity::Corruption),
        Operation::BreakOnSeverity(Severity::Corruption) => Operation::BreakOnSeverity(
            Severity::Error,
        ),
        Operation::BreakOnSeverity(Severity::Error) => Operation::BreakOnSeverity(
            Severity::Warning,
        ),
        Operation::BreakOnSeverity(_) => Operation::ResolveWindowHandle,
        Operation::ResolveWindowHandle => Operation::CreateSwapchain,
        Operation::CreateSwapchain => Operation::GetBackBuffer,
        Operation::GetBackBuffer => Operation::CreateRenderTargetView,
        Operation::CreateRenderTargetView => Operation::CreateDepthTexture,
        Operation::CreateDepthTexture => Operation::CreateDepthStencilView,
        Operation::CreateDepthStencilView => Operation::CreateIndexBuffer,
        Operation::CreateIndexBuffer => Operation::CompileShader(ShaderStage::Vertex),
        Operation::CompileShader(stage) => Operation::CreateShader(stage),
        Operation::CreateShader(ShaderStage::Vertex) => Operation::CompileShader(
            ShaderStage::Pixel,
        ),
        Operation::CreateShader(ShaderStage::Pixel) => Operation::PollEvents,
        Operation::PollEvents => Operation::RenderFrame,
        Operation::RenderFrame => Operation::PollEvents,
    }
}

/// Whether `op` belongs to the frame loop rather than to the bootstrap.
pub open spec fn in_frame_loop(op: Operation) -> bool {
    op == Operation::PollEvents || op == Operation::RenderFrame
}

/// The class of a failure.
pub open spec fn kind_of(failure: FailureView) -> ErrorKind {
    match failure {
        FailureView::Operation(op) => if in_frame_loop(op) {
            ErrorKind::Runtime
        } else if op is CompileShader {
            ErrorKind::ShaderCompilation
        } else {
            ErrorKind::Setup
        },
        FailureView::Shader(ShaderErrorView::Creation { .. }) => ErrorKind::Setup,
        FailureView::Shader(_) => ErrorKind::ShaderCompilation,
        FailureView::Present { .. } => ErrorKind::Runtime,
    }
}

/// The message that names `op` when the driver could not perform it.
pub open spec fn failure_text(op: Operation) -> Seq<char> {
    match op {
        Operation::InitWindowing => "Failed to initialize SDL2."@,
        Operation::OpenVideo => "Failed to get SDL2 video subsystem."@,
        Operation::CreateWindow => "Failed to create SDL2 window."@,
        Operation::OpenEventPump => "Failed to get SDL2 event pump."@,
        Operation::CreateFactory => "Failed to create DXGI factory."@,
        Operation::SelectAdapter => "Failed to get adapter."@,
        Operation::DescribeAdapter => "Failed to get adapter description."@,
        Operation::AnnounceAdapter =>
            "Failed to convert adapter description (utf 16) to String."@,
        Operation::CreateDevice => "Failed to create D3D11 Device and D3D11 DeviceContext."@,
        Operation::AcquireDevice => "Failed to create D3D11Device."@,
        Operation::UpgradeDevice => "Failed to cast ID3D11Device to ID3D11Device5."@,
        Operation::AcquireContext => "Failed to create D3D11DeviceContext."@,
        Operation::UpgradeContext =>
            "Failed to cast ID3D11DeviceContext to ID3D11DeviceContext2."@,
        Operation::DebugController => "Failed to get debug controller from the D3D11Device."@,
        Operation::InfoQueue => "Failed to get D3D11InfoQueue from the D3D11Device."@,
        Operation::BreakOnSeverity(_) => "Failed to set break on severity."@,
        Operation::ResolveWindowHandle => "Was not able to get HWND from the SDL window!"@,
        Operation::CreateSwapchain => "Failed to create DXGI swapchain"@,
        Operation::GetBackBuffer => "Failed to get swapchain back buffer at index 0."@,
        Operation::CreateRenderTargetView => "Failed to create RTV."@,
        Operation::CreateDepthTexture => "Failed to create D3D11 Depth Texture."@,
        Operation::CreateDepthStencilView => "Failed to create depth stencil view."@,
        Operation::CreateIndexBuffer => "Failed to create index buffer"@,
        Operation::CompileShader(stage) => compile_failure_text(stage),
        Operation::CreateShader(stage) => create_failure_text(stage),
        Operation::PollEvents => "Failed to poll events."@,
        Operation::RenderFrame => "Failed to render frame."@,
    }
}

/// The message with which a failure is reported.
pub open spec fn message_of(failure: FailureView) -> Seq<char> {
    match failure {
        FailureView::Operation(op) => failure_text(op),
        FailureView::Shader(error) => shader_error_text(error),
        FailureView::Present { .. } => "Swapchain Present failed!"@,
    }
}

/// The run ends in failure.
pub open spec fn abort(failure: FailureView) -> (Phase, RequestView) {
    (Phase::Failed, RequestView::Abort(failure))
}

/// Entering `op`: the request that has the driver perform it. An operation
/// that works on what the response before it carried (the adapter's
/// description, the window's handle, the compiled bytecode) is not entered
/// this way.
pub open spec fn begin(config: ConfigView, op: Operation) -> (Phase, RequestView) {
    match op {
        Operation::InitWindowing => (Phase::Awaiting(op), RequestView::InitWindowing),
        Operation::OpenVideo => (Phase::Awaiting(op), RequestView::OpenVideo),
        Operation::CreateWindow => (
            Phase::Awaiting(op),
            RequestView::CreateWindow {
                title: window_title_spec(),
                desc: window_desc_for(config.width, config.height),
            },
        ),
        Operation::OpenEventPump => (Phase::Awaiting(op), RequestView::OpenEventPump),
        Operation::CreateFactory => (
            Phase::Awaiting(op),
            RequestView::CreateFactory(factory_desc_for(config.debug)),
        ),
        Operation::SelectAdapter => (
            Phase::Awaiting(op),
            RequestView::SelectAdapter(adapter_query_spec()),
        ),
        Operation::DescribeAdapter => (Phase::Awaiting(op), RequestView::DescribeAdapter),
        Operation::AnnounceAdapter => abort(FailureView::Operation(op)),
        Operation::CreateDevice => (
            Phase::Awaiting(op),
            RequestView::CreateDevice(device_desc_for(config.debug)),
        ),
        Operation::AcquireDevice => (Phase::Awaiting(op), RequestView::AcquireDevice),
        Operation::UpgradeDevice => (Phase::Awaiting(op), RequestView::UpgradeDevice),
        Operation::AcquireContext => (Phase::Awaiting(op), RequestView::AcquireContext),
        Operation::UpgradeContext => (Phase::Awaiting(op), RequestView::UpgradeContext),
        Operation::DebugController => (Phase::Awaiting(op), RequestView::DebugController),
        Operation::InfoQueue => (Phase::Awaiting(op), RequestView::InfoQueue),
        Operation::BreakOnSeverity(severity) => (
            Phase::Awaiting(op),
            RequestView::BreakOnSeverity(severity),
        ),
        Operation::ResolveWindowHandle => (Phase::Awaiting(op), RequestView::ResolveWindowHandle),
        Operation::CreateSwapchain => abort(FailureView::Operation(op)),
        Operation::GetBackBuffer => (Phase::Awaiting(op), RequestView::GetBackBuffer { index: 0 }),
        Operation::CreateRenderTargetView => (
            Phase::Awaiting(op),
            RequestView::CreateRenderTargetView,
        ),
        Operation::CreateDepthTexture => (
            Phase::Awaiting(op),
            RequestView::CreateDepthTexture(depth_texture_desc_for(config.width, config.height)),
        ),
        Operation::CreateDepthStencilView => (
            Phase::Awaiting(op),
            RequestView::CreateDepthStencilView(depth_stencil_view_desc_spec()),
        ),
        Operation::CreateIndexBuffer => (
            Phase::Awaiting(op),
            RequestView::CreateIndexBuffer {
                desc: index_buffer_desc_for(triangle_indices()),
                indices: triangle_indices(),
            },
        ),
        Operation::CompileShader(stage) => if has_interior_nul(config.shader_path, '\0') {
            abort(
                FailureView::Shader(
                    ShaderErrorView::InvalidPath {
                        stage,
                        nul_position: nul_unit_position(config.shader_path) as usize,
                    },
                ),
            )
        } else {
            (
                Phase::Awaiting(op),
                RequestView::CompileShader(
                    compile_request_for(stage, config.shader_path, config.debug),
                ),
            )
        },
        Operation::CreateShader(_) => abort(FailureView::Operation(op)),
        Operation::PollEvents => (Phase::Awaiting(op), RequestView::PollEvents),
        Operation::RenderFrame => (
            Phase::Awaiting(op),
            RequestView::RenderFrame {
                commands: frame_commands_for(viewport_for(config.width, config.height)),
                present: present_params_spec(),
            },
        ),
    }
}

/// What follows when the driver answers `response` to `op`.
pub open spec fn respond(config: ConfigView, op: Operation, response: ResponseView) -> (
    Phase,
    RequestView,
) {
    match op {
        Operation::DescribeAdapter => match response {
            ResponseView::AdapterDescription(units) => match utf16_decode(units) {
                Some(description) => (
                    Phase::Awaiting(Operation::AnnounceAdapter),
                    RequestView::AnnounceAdapter { description },
                ),
                None => abort(FailureView::Operation(Operation::AnnounceAdapter)),
            },
            _ => abort(FailureView::Operation(op)),
        },
        Operation::ResolveWindowHandle => match response {
            ResponseView::WindowHandle(handle) => match resolved_hwnd(handle) {
                Some(hwnd) => (
                    Phase::Awaiting(Operation::CreateSwapchain),
                    RequestView::CreateSwapchain {
                        hwnd,
                        desc: swap_chain_desc_for(config.width, config.height),
                    },
                ),
                None => abort(FailureView::Operation(op)),
            },
            _ => abort(FailureView::Operation(op)),
        },
        Operation::CompileShader(stage) => match response {
            ResponseView::Compiled(outcome) => match compile_result(stage, outcome) {
                Ok(bytecode) => (
                    Phase::Awaiting(Operation::CreateShader(stage)),
                    RequestView::CreateShader { stage, bytecode },
                ),
                Err(error) => abort(FailureView::Shader(error)),
            },
            _ => abort(FailureView::Operation(op)),
        },
        Operation::CreateShader(stage) => match response {
            ResponseView::Completed => begin(config, successor(config.debug, op)),
            _ => abort(FailureView::Shader(ShaderErrorView::Creation { stage })),
        },
        Operation::PollEvents => match response {
            ResponseView::Events(events) => match state_after(events) {
                LoopState::Terminated => (Phase::Terminated, RequestView::Exit),
                LoopState::Running => begin(config, Operation::RenderFrame),
            },
            _ => abort(FailureView::Operation(op)),
        },
        Operation::RenderFrame => match response {
            ResponseView::Presented(status) => if status == PRESENT_OK {
                begin(config, Operation::PollEvents)
            } else {
                abort(FailureView::Present { status })
            },
            _ => abort(FailureView::Operation(op)),
        },
        _ => match response {
            ResponseView::Completed => begin(config, successor(config.debug, op)),
            _ => abort(FailureView::Operation(op)),
        },
    }
}

/// One step of a run: the phase and the request that follow `response` in
/// `phase`. A run that has ended stays as it is.
pub open spec fn transition(config: ConfigView, phase: Phase, response: ResponseView) -> (
    Phase,
    RequestView,
) {
    match phase {
        Phase::Awaiting(op) => respond(config, op, response),
        Phase::Terminated => (Phase::Terminated, RequestView::Halted),
        Phase::Failed => (Phase::Failed, RequestView::Halted),
    }
}

impl Config {
    /// The reference setup: a window of 1080 by 720 pixels and the
    /// shaders of the hello-triangle file.
    pub fn reference(debug: bool) -> (config: Config)
        ensures
            config@ == (ConfigView {
                width: WINDOW_WIDTH,
                height: WINDOW_HEIGHT,
                shader_path: "shaders/hello_triangle.hlsl"@,
                debug,
            }),
    {
        Config {
            width: WINDOW_WIDTH,
            height: WINDOW_HEIGHT,
            shader_path: "shaders/hello_triangle.hlsl".to_owned(),
            debug,
        }
    }
}

impl Operation {
    /// The operation that follows this one.
    pub fn next(self, debug: bool) -> (op: Operation)
        ensures
            op == successor(debug, self),
    {
        match self {
            Operation::InitWindowing => Operation::OpenVideo,
            Operation::OpenVideo => Operation::CreateWindow,
            Operation::CreateWindow => Operation::OpenEventPump,
            Operation::OpenEventPump => Operation::CreateFactory,
            Operation::CreateFactory => Operation::SelectAdapter,
            Operation::SelectAdapter => Operation::DescribeAdapter,
            Operation::DescribeAdapter => Operation::AnnounceAdapter,
            Operation::AnnounceAdapter => Operation::CreateDevice,
            Operation::CreateDevice => Operation::AcquireDevice,
            Operation::AcquireDevice => Operation::UpgradeDevice,
            Operation::UpgradeDevice => Operation::AcquireContext,
            Operation::AcquireContext => Operation::UpgradeContext,
            Operation::UpgradeContext => if debug {
                Operation::DebugController
            } else {
                Operation::ResolveWindowHandle
            },
            Operation::DebugController => Operation::InfoQueue,
            Operation::InfoQueue => Operation::BreakOnSeverity(Severity::Corruption),
            Operation::BreakOnSeverity(Severity::Corruption) => Operation::BreakOnSeverity(
                Severity::Error,
            ),
            Operation::BreakOnSeverity(Severity::Error) => Operation::BreakOnSeverity(
                Severity::Warning,
            ),
            Operation::BreakOnSeverity(_) => Operation::ResolveWindowHandle,
            Operation::ResolveWindowHandle => Operation::CreateSwapchain,
            Operation::CreateSwapchain => Operation::GetBackBuffer,
            Operation::GetBackBuffer => Operation::CreateRenderTargetView,
            Operation::CreateRenderTargetView => Operation::CreateDepthTexture,
            Operation::CreateDepthTexture => Operation::CreateDepthStencilView,
            Operation::CreateDepthStencilView => Operation::CreateIndexBuffer,
            Operation::CreateIndexBuffer => Operation::CompileShader(ShaderStage::Vertex),
            Operation::CompileShader(stage) => Operation::CreateShader(stage),
            Operation::CreateShader(ShaderStage::Vertex) => Operation::CompileShader(
                ShaderStage::Pixel,
            ),
            Operation::CreateShader(ShaderStage::Pixel) => Operation::PollEvents,
            Operation::PollEvents => Operation::RenderFrame,
            Operation::RenderFrame => Operation::PollEvents,
        }
    }

    /// The message that names this operation when it could not be
    /// performed.
    pub fn failure_message(self) -> (message: &'static str)
        ensures
            message@ == failure_text(self),
    {
        match self {
            Operation::InitWindowing => "Failed to initialize SDL2.",
            Operation::OpenVideo => "Failed to get SDL2 video subsystem.",
            Operation::CreateWindow => "Failed to create SDL2 window.",
            Operation::OpenEventPump => "Failed to get SDL2 event pump.",
            Operation::CreateFactory => "Failed to create DXGI factory.",
            Operation::SelectAdapter => "Failed to get adapter.",
            Operation::DescribeAdapter => "Failed to get adapter description.",
            Operation::AnnounceAdapter =>
                "Failed to convert adapter description (utf 16) to String.",
            Operation::CreateDevice => "Failed to create D3D11 Device and D3D11 DeviceContext.",
            Operation::AcquireDevice => "Failed to create D3D11Device.",
            Operation::UpgradeDevice => "Failed to cast ID3D11Device to ID3D11Device5.",
            Operation::AcquireContext => "Failed to create D3D11DeviceContext.",
            Operation::UpgradeContext =>
                "Failed to cast ID3D11DeviceContext to ID3D11DeviceContext2.",
            Operation::DebugController => "Failed to get debug controller from the D3D11Device.",
            Operation::InfoQueue => "Failed to get D3D11InfoQueue from the D3D11Device.",
            Operation::BreakOnSeverity(_) => "Failed to set break on severity.",
            Operation::ResolveWindowHandle => "Was not able to get HWND from the SDL window!",
            Operation::CreateSwapchain => "Failed to create DXGI swapchain",
            Operation::GetBackBuffer => "Failed to get swapchain back buffer at index 0.",
            Operation::CreateRenderTargetView => "Failed to create RTV.",
            Operation::CreateDepthTexture => "Failed to create D3D11 Depth Texture.",
            Operation::CreateDepthStencilView => "Failed to create depth stencil view.",
            Operation::CreateIndexBuffer => "Failed to create index buffer",
            Operation::CompileShader(stage) => stage.compile_failure_message(),
            Operation::CreateShader(stage) => stage.create_failure_message(),
            Operation::PollEvents => "Failed to poll events.",
            Operation::RenderFrame => "Failed to render frame.",
        }
    }

    /// Whether this operation belongs to the frame loop.
    pub fn is_in_frame_loop(self) -> (b: bool)
        ensures
            b == in_frame_loop(self),
    {
        match self {
            Operation::PollEvents | Operation::RenderFrame => true,
            _ => false,
        }
    }
}

impl Failure {
    /// The class of this failure.
    pub fn kind(&self) -> (kind: ErrorKind)
        ensures
            kind == kind_of(self@),
    {
        match self {
            Failure::Operation(op) => if op.is_in_frame_loop() {
                ErrorKind::Runtime
            } else {
                match op {
                    Operation::CompileShader(_) => ErrorKind::ShaderCompilation,
                    _ => ErrorKind::Setup,
                }
            },
            Failure::Shader(ShaderError::Creation { .. }) => ErrorKind::Setup,
            Failure::Shader(_) => ErrorKind::ShaderCompilation,
            Failure::Present { .. } => ErrorKind::Runtime,
        }
    }

    /// The message with which this failure is reported.
    pub fn message(&self) -> (message: &'static str)
        ensures
            message@ == message_of(self@),
    {
        match self {
            Failure::Operation(op) => op.failure_message(),
            Failure::Shader(error) => error.message(),
            Failure::Present { .. } => "Swapchain Present failed!",
        }
    }

    /// The compiler's own messages, where this failure carries them.
    pub fn diagnostic(&self) -> (text: Option<&str>)
        ensures
            match text {
                Some(t) => self@ matches FailureView::Shader(error) && diagnostic_of(error)
                    == Some(t@),
                None => self@ matches FailureView::Shader(error) ==> diagnostic_of(error) is None,
            },
    {
        match self {
            Failure::Shader(error) => error.diagnostic(),
            _ => None,
        }
    }
}

/// A run of the renderer.
#[derive(Clone, Debug, PartialEq, Eq)]
pub struct Engine {
    pub config: Config,
    pub phase: Phase,
}

impl Engine {
    /// A run at its start, with the first request.
    pub fn start(config: Config) -> (r: (Engine, Request))
        ensures
            r.0.config == config,
            (r.0.phase, r.1@) == begin(config@, Operation::InitWindowing),
    {
        (Engine { config, phase: Phase::Awaiting(Operation::InitWindowing) }, Request::InitWindowing)
    }

    /// Whether the run has ended.
    pub fn is_halted(&self) -> (b: bool)
        ensures
            b == !(self.phase is Awaiting),
    {
        match self.phase {
            Phase::Awaiting(_) => false,
            _ => true,
        }
    }

    /// Ends the run in failure.
    fn fail(&mut self, failure: Failure) -> (request: Request)
        ensures
            final(self).config == old(self).config,
            (final(self).phase, request@) == abort(failure@),
    {
        self.phase = Phase::Failed;
        Request::Abort(failure)
    }

    /// Enters `op` and gives the request that has the driver perform it.
    fn enter(&mut self, op: Operation) -> (request: Request)
        ensures
            final(self).config == old(self).config,
            (final(self).phase, request@) == begin(old(self).config@, op),
    {
        let width = self.config.width;
        let height = self.config.height;
        let debug = self.config.debug;
        let request = match op {
            Operation::InitWindowing => Request::InitWindowing,
            Operation::OpenVideo => Request::OpenVideo,
            Operation::CreateWindow => Request::CreateWindow {
                title: window_title(),
                desc: window_desc(width, height),
            },
            Operation::OpenEventPump => Request::OpenEventPump,
            Operation::CreateFactory => Request::CreateFactory(factory_desc(debug)),
            Operation::SelectAdapter => Request::SelectAdapter(adapter_query()),
            Operation::DescribeAdapter => Request::DescribeAdapter,
            Operation::AnnounceAdapter => {
                return self.fail(Failure::Operation(op));
            },
            Operation::CreateDevice => Request::CreateDevice(device_desc(debug)),
            Operation::AcquireDevice => Request::AcquireDevice,
            Operation::UpgradeDevice => Request::UpgradeDevice,
            Operation::AcquireContext => Request::AcquireContext,
            Operation::UpgradeContext => Request::UpgradeContext,
            Operation::DebugController => Request::DebugController,
            Operation::InfoQueue => Request::InfoQueue,
            Operation::BreakOnSeverity(severity) => Request::BreakOnSeverity(severity),
            Operation::ResolveWindowHandle => Request::ResolveWindowHandle,
            Operation::CreateSwapchain => {
                return self.fail(Failure::Operation(op));
            },
            Operation::GetBackBuffer => Request::GetBackBuffer { index: 0 },
            Operation::CreateRenderTargetView => Request::CreateRenderTargetView,
            Operation::CreateDepthTexture => Request::CreateDepthTexture(
                depth_texture_desc(width, height),
            ),
            Operation::CreateDepthStencilView => Request::CreateDepthStencilView(
                depth_stencil_view_desc(),
            ),
            Operation::CreateIndexBuffer => {
                let indices = index_data();
                let desc = index_buffer_desc(&indices).unwrap();
                Request::CreateIndexBuffer { desc, indices }
            },
            Operation::CompileShader(stage) => {
                let made = match stage {
                    ShaderStage::Vertex => create_vertex_shader(
                        self.config.shader_path.as_str(),
                        debug,
                    ),
                    ShaderStage::Pixel => create_pixel_shader(
                        self.config.shader_path.as_str(),
                        debug,
                    ),
                };
                match made {
                    Ok(request) => Request::CompileShader(request),
                    Err(error) => {
                        return self.fail(Failure::Shader(error));
                    },
                }
            },
            Operation::CreateShader(_) => {
                return self.fail(Failure::Operation(op));
            },
            Operation::PollEvents => Request::PollEvents,
            Operation::RenderFrame => Request::RenderFrame {
                commands: frame_commands(viewport(width, height)),
                present: present_params(),
            },
        };
        self.phase = Phase::Awaiting(op);
        request
    }

    /// Takes the driver's response to the last request and gives the next
    /// request.
    pub fn step(&mut self, response: Response) -> (request: Request)
        ensures
            final(self).config == old(self).config,
            (final(self).phase, request@) == transition(
                old(self).config@,
                old(self).phase,
                response@,
            ),
    {
        let op = match self.phase {
            Phase::Awaiting(op) => op,
            Phase::Terminated => {
                return Request::Halted;
            },
            Phase::Failed => {
                return Request::Halted;
            },
        };
        let debug = self.config.debug;
        match op {
            Operation::DescribeAdapter => match response {
                Response::AdapterDescription(units) => match decode_wide(&units) {
                    Some(description) => {
                        self.phase = Phase::Awaiting(Operation::AnnounceAdapter);
                        Request::AnnounceAdapter { description }
                    },
                    None => self.fail(Failure::Operation(Operation::AnnounceAdapter)),
                },
                _ => self.fail(Failure::Operation(op)),
            },
            Operation::ResolveWindowHandle => match response {
                Response::WindowHandle(handle) => match resolve_window_handle(handle) {
                    Some(hwnd) => {
                        self.phase = Phase::Awaiting(Operation::CreateSwapchain);
                        Request::CreateSwapchain {
                            hwnd,
                            desc: swap_chain_desc(self.config.width, self.config.height),
                        }
                    },
                    None => self.fail(Failure::Operation(op)),
                },
                _ => self.fail(Failure::Operation(op)),
            },
            Operation::CompileShader(stage) => match response {
                Response::Compiled(outcome) => match finish_compile(stage, outcome) {
                    Ok(bytecode) => {
                        self.phase = Phase::Awaiting(Operation::CreateShader(stage));
                        Request::CreateShader { stage, bytecode }
                    },
                    Err(error) => self.fail(Failure::Shader(error)),
                },
                _ => self.fail(Failure::Operation(op)),
            },
            Operation::CreateShader(stage) => match response {
                Response::Completed => self.enter(op.next(debug)),
                _ => self.fail(Failure::Shader(ShaderError::Creation { stage })),
            },
            Operation::PollEvents => match response {
                Response::Events(events) => match LoopState::Running.after_events(&events) {
                    LoopState::Terminated => {
                        self.phase = Phase::Terminated;
                        Request::Exit
                    },
                    LoopState::Running => self.enter(Operation::RenderFrame),
                },
                _ => self.fail(Failure::Operation(op)),
            },
            Operation::RenderFrame => match response {
                Response::Presented(status) => if present_succeeded(status) {
                    self.enter(Operation::PollEvents)
                } else {
                    self.fail(Failure::Present { status })
                },
                _ => self.fail(Failure::Operation(op)),
            },
            _ => match response {
                Response::Completed => self.enter(op.next(debug)),
                _ => self.fail(Failure::Operation(op)),
            },
        }
    }
}

} // verus!
