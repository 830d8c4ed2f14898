use serenity_engine::device::{adapter_query, device_desc, factory_desc, Severity};
use serenity_engine::engine::{
    Config, Engine, ErrorKind, Failure, Operation, Phase, Request, Response,
};
use serenity_engine::frame::{
    frame_commands, present_params, InputEvent, Key, PresentParams, RenderCommand,
};
use serenity_engine::presentation::{
    depth_stencil_view_desc, depth_texture_desc, index_buffer_desc, swap_chain_desc, viewport,
    window_desc, NativeHandle,
};
use serenity_engine::shader::{
    create_pixel_shader, create_vertex_shader, CompileOutcome, ShaderError, ShaderStage,
};

const HWND: isize = 0x00A1_B2C3;

fn vertex_bytecode() -> Vec<u8> {
    vec![0x44, 0x58, 0x42, 0x43, 0x11]
}

fn pixel_bytecode() -> Vec<u8> {
    vec![0x44, 0x58, 0x42, 0x43, 0x22, 0x33]
}

/// A description as the platform hands it out: the name, then NULs up to
/// 128 units.
fn adapter_units() -> Vec<u16> {
    let mut units: Vec<u16> = "GPU \u{1F600} 3000".encode_utf16().collect();
    units.resize(128, 0);
    units
}

fn adapter_name() -> String {
    let mut name = "GPU \u{1F600} 3000".to_string();
    while name.encode_utf16().count() < 128 {
        name.push('\0');
    }
    name
}

fn compiled(bytecode: Vec<u8>) -> Response {
    Response::Compiled(CompileOutcome { status: 0, bytecode: Some(bytecode), diagnostics: None })
}

/// The response of a driver for which everything works.
fn fine(request: &Request) -> Response {
    match request {
        Request::DescribeAdapter => Response::AdapterDescription(adapter_units()),
        Request::ResolveWindowHandle => Response::WindowHandle(NativeHandle::Win32 { hwnd: HWND }),
        Request::CompileShader(compile) => match compile.stage {
            ShaderStage::Vertex => compiled(vertex_bytecode()),
            ShaderStage::Pixel => compiled(pixel_bytecode()),
        },
        Request::PollEvents => Response::Events(Vec::new()),
        Request::RenderFrame { .. } => Response::Presented(0),
        _ => Response::Completed,
    }
}

/// The requests of a run in which everything works, up to the first poll.
fn bootstrap(debug: bool) -> (Engine, Vec<Request>) {
    let (mut engine, mut request) = Engine::start(Config::reference(debug));
    let mut requests = Vec::new();
    while request != Request::PollEvents {
        assert!(requests.len() < 100);
        let response = fine(&request);
        requests.push(request);
        request = engine.step(response);
    }
    (engine, requests)
}

fn engine_at(operation: Operation, debug: bool) -> Engine {
    Engine { config: Config::reference(debug), phase: Phase::Awaiting(operation) }
}

fn release_order() -> Vec<Operation> {
    vec![
        Operation::InitWindowing,
        Operation::OpenVideo,
        Operation::CreateWindow,
        Operation::OpenEventPump,
        Operation::CreateFactory,
        Operation::SelectAdapter,
        Operation::DescribeAdapter,
        Operation::AnnounceAdapter,
        Operation::CreateDevice,
        Operation::AcquireDevice,
        Operation::UpgradeDevice,
        Operation::AcquireContext,
        Operation::UpgradeContext,
        Operation::ResolveWindowHandle,
        Operation::CreateSwapchain,
        Operation::GetBackBuffer,
        Operation::CreateRenderTargetView,
        Operation::CreateDepthTexture,
        Operation::CreateDepthStencilView,
        Operation::CreateIndexBuffer,
        Operation::CompileShader(ShaderStage::Vertex),
        Operation::CreateShader(ShaderStage::Vertex),
        Operation::CompileShader(ShaderStage::Pixel),
        Operation::CreateShader(ShaderStage::Pixel),
    ]
}

fn debug_order() -> Vec<Operation> {
    let mut order = release_order();
    let validation = vec![
        Operation::DebugController,
        Operation::InfoQueue,
        Operation::BreakOnSeverity(Severity::Corruption),
        Operation::BreakOnSeverity(Severity::Error),
        Operation::BreakOnSeverity(Severity::Warning),
    ];
    for (offset, operation) in validation.into_iter().enumerate() {
        order.insert(13 + offset, operation);
    }
    order
}

#[test]
fn reference_config() {
    let config = Config::reference(true);
    assert_eq!(
        config,
        Config {
            width: 1080,
            height: 720,
            shader_path: "shaders/hello_triangle.hlsl".to_string(),
            debug: true,
        }
    );
    assert!(!Config::reference(false).debug);
}

#[test]
fn run_starts_with_the_windowing_layer() {
    let (engine, request) = Engine::start(Config::reference(false));
    assert_eq!(request, Request::InitWindowing);
    assert_eq!(engine.phase, Phase::Awaiting(Operation::InitWindowing));
    assert_eq!(engine.config, Config::reference(false));
    assert!(!engine.is_halted());
}

#[test]
fn release_bootstrap_requests_in_order() {
    let (engine, requests) = bootstrap(false);
    let indices = vec![0u32, 1, 2];
    let expected = vec![
        Request::InitWindowing,
        Request::OpenVideo,
        Request::CreateWindow { title: "serenity-engine", desc: window_desc(1080, 720) },
        Request::OpenEventPump,
        Request::CreateFactory(factory_desc(false)),
        Request::SelectAdapter(adapter_query()),
        Request::DescribeAdapter,
        Request::AnnounceAdapter { description: adapter_name() },
        Request::CreateDevice(device_desc(false)),
        Request::AcquireDevice,
        Request::UpgradeDevice,
        Request::AcquireContext,
        Request::UpgradeContext,
        Request::ResolveWindowHandle,
        Request::CreateSwapchain { hwnd: HWND, desc: swap_chain_desc(1080, 720) },
        Request::GetBackBuffer { index: 0 },
        Request::CreateRenderTargetView,
        Request::CreateDepthTexture(depth_texture_desc(1080, 720)),
        Request::CreateDepthStencilView(depth_stencil_view_desc()),
        Request::CreateIndexBuffer {
            desc: index_buffer_desc(&indices).unwrap(),
            indices: indices.clone(),
        },
        Request::CompileShader(create_vertex_shader("shaders/hello_triangle.hlsl", false).unwrap()),
        Request::CreateShader { stage: ShaderStage::Vertex, bytecode: vertex_bytecode() },
        Request::CompileShader(create_pixel_shader("shaders/hello_triangle.hlsl", false).unwrap()),
        Request::CreateShader { stage: ShaderStage::Pixel, bytecode: pixel_bytecode() },
    ];
    assert_eq!(requests, expected);
    assert_eq!(requests.len(), 24);
    assert_eq!(engine.phase, Phase::Awaiting(Operation::PollEvents));
}

#[test]
fn debug_bootstrap_sets_up_the_validation_layer() {
    let (engine, requests) = bootstrap(true);
    assert_eq!(requests.len(), 29);
    assert_eq!(requests[4], Request::CreateFactory(factory_desc(true)));
    assert_eq!(requests[8], Request::CreateDevice(device_desc(true)));
    assert_eq!(
        requests[12..19].to_vec(),
        vec![
            Request::UpgradeContext,
            Request::DebugController,
            Request::InfoQueue,
            Request::BreakOnSeverity(Severity::Corruption),
            Request::BreakOnSeverity(Severity::Error),
            Request::BreakOnSeverity(Severity::Warning),
            Request::ResolveWindowHandle,
        ]
    );
    assert_eq!(
        requests[25],
        Request::CompileShader(create_vertex_shader("shaders/hello_triangle.hlsl", true).unwrap())
    );
    assert_eq!(engine.phase, Phase::Awaiting(Operation::PollEvents));
}

#[test]
fn operations_follow_each_other_in_bootstrap_order() {
    for (debug, order) in [(false, release_order()), (true, debug_order())] {
        for pair in order.windows(2) {
            assert_eq!(pair[0].next(debug), pair[1]);
        }
        assert_eq!(order[0], Operation::InitWindowing);
        assert_eq!(order[order.len() - 1].next(debug), Operation::PollEvents);
        for operation in &order {
            assert!(!operation.is_in_frame_loop());
        }
    }
    assert_eq!(Operation::PollEvents.next(false), Operation::RenderFrame);
    assert_eq!(Operation::RenderFrame.next(true), Operation::PollEvents);
    assert!(Operation::PollEvents.is_in_frame_loop());
    assert!(Operation::RenderFrame.is_in_frame_loop());
    assert_eq!(
        Operation::BreakOnSeverity(Severity::Info).next(true),
        Operation::ResolveWindowHandle
    );
}

#[test]
fn phases_of_a_run_follow_the_bootstrap_order() {
    for (debug, order) in [(false, release_order()), (true, debug_order())] {
        let (mut engine, mut request) = Engine::start(Config::reference(debug));
        for operation in order {
            assert_eq!(engine.phase, Phase::Awaiting(operation));
            request = engine.step(fine(&request));
        }
        assert_eq!(engine.phase, Phase::Awaiting(Operation::PollEvents));
        assert_eq!(request, Request::PollEvents);
    }
}

#[test]
fn failure_of_any_bootstrap_operation_aborts_with_its_message() {
    let expected = vec![
        "Failed to initialize SDL2.",
        "Failed to get SDL2 video subsystem.",
        "Failed to create SDL2 window.",
        "Failed to get SDL2 event pump.",
        "Failed to create DXGI factory.",
        "Failed to get adapter.",
        "Failed to get adapter description.",
        "Failed to convert adapter description (utf 16) to String.",
        "Failed to create D3D11 Device and D3D11 DeviceContext.",
        "Failed to create D3D11Device.",
        "Failed to cast ID3D11Device to ID3D11Device5.",
        "Failed to create D3D11DeviceContext.",
        "Failed to cast ID3D11DeviceContext to ID3D11DeviceContext2.",
        "Failed to get debug controller from the D3D11Device.",
        "Failed to get D3D11InfoQueue from the D3D11Device.",
        "Failed to set break on severity.",
        "Failed to set break on severity.",
        "Failed to set break on severity.",
        "Was not able to get HWND from the SDL window!",
        "Failed to create DXGI swapchain",
        "Failed to get swapchain back buffer at index 0.",
        "Failed to create RTV.",
        "Failed to create D3D11 Depth Texture.",
        "Failed to create depth stencil view.",
        "Failed to create index buffer",
        "Failed to compile vertex shader.",
        "Failed to create vertex shader.",
        "Failed to compile pixel shader.",
        "Failed to create pixel shader.",
    ];
    let order = debug_order();
    assert_eq!(order.len(), expected.len());
    for (operation, message) in order.into_iter().zip(expected) {
        assert_eq!(operation.failure_message(), message);
        let mut engine = engine_at(operation, true);
        let request = engine.step(Response::Failed);
        assert_eq!(engine.phase, Phase::Failed);
        assert!(engine.is_halted());
        match request {
            Request::Abort(failure) => {
                assert_eq!(failure.message(), message);
                match operation {
                    Operation::CreateShader(stage) => {
                        assert_eq!(failure, Failure::Shader(ShaderError::Creation { stage }));
                        assert_eq!(failure.kind(), ErrorKind::Setup);
                    }
                    Operation::CompileShader(_) => {
                        assert_eq!(failure, Failure::Operation(operation));
                        assert_eq!(failure.kind(), ErrorKind::ShaderCompilation);
                    }
                    _ => {
                        assert_eq!(failure, Failure::Operation(operation));
                        assert_eq!(failure.kind(), ErrorKind::Setup);
                    }
                }
            }
            other => panic!("{:?}", other),
        }
        assert_eq!(engine.step(Response::Completed), Request::Halted);
    }
}

#[test]
fn failed_operation_stops_a_run_midway() {
    let (mut engine, mut request) = Engine::start(Config::reference(false));
    for _ in 0..5 {
        request = engine.step(fine(&request));
    }
    assert_eq!(request, Request::SelectAdapter(adapter_query()));
    let request = engine.step(Response::Failed);
    assert_eq!(request, Request::Abort(Failure::Operation(Operation::SelectAdapter)));
    assert_eq!(engine.phase, Phase::Failed);
}

#[test]
fn unexpected_response_fails_the_awaited_operation() {
    let mut engine = engine_at(Operation::CreateFactory, false);
    assert_eq!(
        engine.step(Response::Presented(0)),
        Request::Abort(Failure::Operation(Operation::CreateFactory))
    );
    let mut engine = engine_at(Operation::CompileShader(ShaderStage::Pixel), false);
    assert_eq!(
        engine.step(Response::Completed),
        Request::Abort(Failure::Operation(Operation::CompileShader(ShaderStage::Pixel)))
    );
    let mut engine = engine_at(Operation::PollEvents, false);
    let request = engine.step(Response::Completed);
    assert_eq!(request, Request::Abort(Failure::Operation(Operation::PollEvents)));
    match request {
        Request::Abort(failure) => {
            assert_eq!(failure.kind(), ErrorKind::Runtime);
            assert_eq!(failure.message(), "Failed to poll events.");
        }
        _ => unreachable!(),
    }
    let mut engine = engine_at(Operation::RenderFrame, false);
    let request = engine.step(Response::Events(Vec::new()));
    assert_eq!(request, Request::Abort(Failure::Operation(Operation::RenderFrame)));
    match request {
        Request::Abort(failure) => {
            assert_eq!(failure.kind(), ErrorKind::Runtime);
            assert_eq!(failure.message(), "Failed to render frame.");
        }
        _ => unreachable!(),
    }
}

#[test]
fn foreign_window_handle_is_fatal() {
    let mut engine = engine_at(Operation::ResolveWindowHandle, false);
    let request = engine.step(Response::WindowHandle(NativeHandle::Other));
    assert_eq!(request, Request::Abort(Failure::Operation(Operation::ResolveWindowHandle)));
    assert_eq!(engine.phase, Phase::Failed);
    match request {
        Request::Abort(failure) => {
            assert_eq!(failure.message(), "Was not able to get HWND from the SDL window!");
            assert_eq!(failure.kind(), ErrorKind::Setup);
        }
        _ => unreachable!(),
    }
}

#[test]
fn swapchain_is_created_on_the_resolved_handle_with_the_window_size() {
    for (width, height) in [(1080u32, 720u32), (640, 480), (1, 2)] {
        let config =
            Config { width, height, shader_path: "s.hlsl".to_string(), debug: false };
        let mut engine = Engine { config, phase: Phase::Awaiting(Operation::ResolveWindowHandle) };
        let request = engine.step(Response::WindowHandle(NativeHandle::Win32 { hwnd: 77 }));
        match request {
            Request::CreateSwapchain { hwnd, desc } => {
                assert_eq!(hwnd, 77);
                assert_eq!((desc.width, desc.height), (width, height));
                assert_eq!(desc, swap_chain_desc(width, height));
            }
            other => panic!("{:?}", other),
        }
        engine.phase = Phase::Awaiting(Operation::CreateRenderTargetView);
        match engine.step(Response::Completed) {
            Request::CreateDepthTexture(desc) => {
                assert_eq!((desc.width, desc.height), (width, height));
            }
            other => panic!("{:?}", other),
        }
        engine.phase = Phase::Awaiting(Operation::PollEvents);
        match engine.step(Response::Events(Vec::new())) {
            Request::RenderFrame { commands, .. } => {
                assert_eq!(
                    commands[7],
                    RenderCommand::SetViewport { viewport: viewport(width, height) }
                );
            }
            other => panic!("{:?}", other),
        }
    }
}

#[test]
fn invalid_shader_path_aborts_when_the_shader_is_compiled() {
    let config =
        Config { width: 8, height: 8, shader_path: "bad\0path.hlsl".to_string(), debug: false };
    let mut engine = Engine { config, phase: Phase::Awaiting(Operation::CreateIndexBuffer) };
    let request = engine.step(Response::Completed);
    let error = ShaderError::InvalidPath { stage: ShaderStage::Vertex, nul_position: 3 };
    assert_eq!(request, Request::Abort(Failure::Shader(error)));
    assert_eq!(engine.phase, Phase::Failed);
    match request {
        Request::Abort(failure) => {
            assert_eq!(failure.kind(), ErrorKind::ShaderCompilation);
            assert_eq!(failure.message(), "Failed to convert String to U16CString.");
            assert_eq!(failure.diagnostic(), None);
        }
        _ => unreachable!(),
    }
}

#[test]
fn compile_failure_aborts_with_the_diagnostic() {
    let mut engine = engine_at(Operation::CompileShader(ShaderStage::Vertex), false);
    let outcome = CompileOutcome {
        status: -2147467259,
        bytecode: None,
        diagnostics: Some(b"error X3501: 'vs_main': entrypoint not found\0".to_vec()),
    };
    let request = engine.step(Response::Compiled(outcome));
    assert_eq!(engine.phase, Phase::Failed);
    match request {
        Request::Abort(failure) => {
            assert_eq!(
                failure,
                Failure::Shader(ShaderError::Compilation {
                    stage: ShaderStage::Vertex,
                    status: -2147467259,
                    diagnostic: "error X3501: 'vs_main': entrypoint not found".to_string(),
                })
            );
            assert_eq!(failure.kind(), ErrorKind::ShaderCompilation);
            assert_eq!(failure.message(), "Failed to compile vertex shader.");
            assert_eq!(
                failure.diagnostic(),
                Some("error X3501: 'vs_main': entrypoint not found")
            );
        }
        other => panic!("{:?}", other),
    }
    assert_eq!(engine.step(compiled(vertex_bytecode())), Request::Halted);
}

#[test]
fn compiled_bytecode_is_handed_to_the_device() {
    let mut engine = engine_at(Operation::CompileShader(ShaderStage::Pixel), false);
    let request = engine.step(compiled(pixel_bytecode()));
    assert_eq!(
        request,
        Request::CreateShader { stage: ShaderStage::Pixel, bytecode: pixel_bytecode() }
    );
    assert_eq!(engine.phase, Phase::Awaiting(Operation::CreateShader(ShaderStage::Pixel)));
    assert_eq!(engine.step(Response::Completed), Request::PollEvents);
}

#[test]
fn frame_without_input_draws_once_and_presents() {
    let (mut engine, _) = bootstrap(false);
    let request = engine.step(Response::Events(Vec::new()));
    assert_eq!(engine.phase, Phase::Awaiting(Operation::RenderFrame));
    match &request {
        Request::RenderFrame { commands, present } => {
            assert_eq!(*commands, frame_commands(viewport(1080, 720)));
            assert_eq!(*present, present_params());
            assert_eq!(*present, PresentParams { sync_interval: 1, flags: 0 });
            let draws: Vec<&RenderCommand> = commands
                .iter()
                .filter(|c| matches!(c, RenderCommand::DrawIndexedInstanced { .. }))
                .collect();
            assert_eq!(
                draws,
                vec![&RenderCommand::DrawIndexedInstanced {
                    index_count: 3,
                    instance_count: 1,
                    start_index: 0,
                    base_vertex: 0,
                    start_instance: 0,
                }]
            );
        }
        other => panic!("{:?}", other),
    }
    assert_eq!(engine.step(Response::Presented(0)), Request::PollEvents);
    assert_eq!(engine.phase, Phase::Awaiting(Operation::PollEvents));
}

#[test]
fn frames_repeat_while_nothing_asks_to_quit() {
    let (mut engine, _) = bootstrap(false);
    let events = vec![InputEvent::Other, InputEvent::KeyDown { key: Some(Key::Other) }];
    for _ in 0..50 {
        let request = engine.step(Response::Events(events.clone()));
        assert!(matches!(request, Request::RenderFrame { .. }));
        assert_eq!(engine.step(Response::Presented(0)), Request::PollEvents);
    }
    assert!(!engine.is_halted());
}

#[test]
fn quit_event_terminates_without_rendering() {
    let (mut engine, _) = bootstrap(false);
    let request = engine.step(Response::Events(vec![InputEvent::Other, InputEvent::Quit]));
    assert_eq!(request, Request::Exit);
    assert_eq!(engine.phase, Phase::Terminated);
    assert!(engine.is_halted());
    assert_eq!(engine.step(Response::Events(Vec::new())), Request::Halted);
    assert_eq!(engine.step(Response::Presented(0)), Request::Halted);
    assert_eq!(engine.phase, Phase::Terminated);
}

#[test]
fn escape_terminates_without_rendering() {
    let (mut engine, _) = bootstrap(true);
    let events = vec![InputEvent::KeyDown { key: Some(Key::Escape) }, InputEvent::Other];
    assert_eq!(engine.step(Response::Events(events)), Request::Exit);
    assert_eq!(engine.phase, Phase::Terminated);
}

#[test]
fn quit_in_a_later_iteration_terminates_then() {
    let (mut engine, _) = bootstrap(false);
    assert!(matches!(engine.step(Response::Events(Vec::new())), Request::RenderFrame { .. }));
    assert_eq!(engine.step(Response::Presented(0)), Request::PollEvents);
    assert_eq!(engine.step(Response::Events(vec![InputEvent::Quit])), Request::Exit);
}

#[test]
fn failed_present_aborts_and_nothing_is_drawn_again() {
    for status in [1, -1, 0x087A0001, -2005270523, i32::MIN, i32::MAX] {
        let (mut engine, _) = bootstrap(false);
        assert!(matches!(engine.step(Response::Events(Vec::new())), Request::RenderFrame { .. }));
        let request = engine.step(Response::Presented(status));
        assert_eq!(request, Request::Abort(Failure::Present { status }));
        assert_eq!(engine.phase, Phase::Failed);
        match request {
            Request::Abort(failure) => {
                assert_eq!(failure.message(), "Swapchain Present failed!");
                assert_eq!(failure.kind(), ErrorKind::Runtime);
            }
            _ => unreachable!(),
        }
        for response in [
            Response::Events(Vec::new()),
            Response::Presented(0),
            Response::Completed,
            Response::Failed,
        ] {
            assert_eq!(engine.step(response), Request::Halted);
            assert_eq!(engine.phase, Phase::Failed);
        }
    }
}

#[test]
fn step_keeps_the_config() {
    let (mut engine, mut request) = Engine::start(Config::reference(true));
    for _ in 0..40 {
        request = engine.step(fine(&request));
        assert_eq!(engine.config, Config::reference(true));
    }
}

#[test]
fn adapter_description_is_decoded_whole() {
    let mut engine = engine_at(Operation::DescribeAdapter, false);
    let request = engine.step(Response::AdapterDescription(adapter_units()));
    assert_eq!(request, Request::AnnounceAdapter { description: adapter_name() });
    assert_eq!(engine.phase, Phase::Awaiting(Operation::AnnounceAdapter));
    assert_eq!(engine.step(Response::Completed), Request::CreateDevice(device_desc(false)));
}

#[test]
fn short_adapter_description_is_decoded() {
    let mut engine = engine_at(Operation::DescribeAdapter, true);
    let units: Vec<u16> = vec![0x0041, 0x00E9, 0x20AC];
    let request = engine.step(Response::AdapterDescription(units));
    assert_eq!(request, Request::AnnounceAdapter { description: "A\u{e9}\u{20AC}".to_string() });
    let mut engine = engine_at(Operation::DescribeAdapter, true);
    let request = engine.step(Response::AdapterDescription(Vec::new()));
    assert_eq!(request, Request::AnnounceAdapter { description: String::new() });
}

#[test]
fn undecodable_adapter_description_is_fatal() {
    for units in [vec![0x0041u16, 0xD800, 0x0042], vec![0xDC00u16], vec![0x0041u16, 0xD83D]] {
        let mut engine = engine_at(Operation::DescribeAdapter, false);
        let request = engine.step(Response::AdapterDescription(units));
        assert_eq!(request, Request::Abort(Failure::Operation(Operation::AnnounceAdapter)));
        assert_eq!(engine.phase, Phase::Failed);
        match request {
            Request::Abort(failure) => {
                assert_eq!(
                    failure.message(),
                    "Failed to convert adapter description (utf 16) to String."
                );
                assert_eq!(failure.kind(), ErrorKind::Setup);
            }
            _ => unreachable!(),
        }
    }
}

#[test]
fn adapter_description_must_be_reported_as_units() {
    let mut engine = engine_at(Operation::DescribeAdapter, false);
    assert_eq!(
        engine.step(Response::Completed),
        Request::Abort(Failure::Operation(Operation::DescribeAdapter))
    );
}
