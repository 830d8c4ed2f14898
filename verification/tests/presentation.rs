use serenity_engine::device::{
    adapter_query, device_desc, factory_desc, AdapterQuery, DeviceDesc, DriverType, FactoryDesc,
    FeatureLevel, GpuPreference,
};
use serenity_engine::presentation::{
    depth_stencil_view_desc, depth_texture_desc, index_buffer_desc, index_data,
    resolve_window_handle, swap_chain_desc, viewport, window_desc, window_title, AlphaMode,
    Binding, BufferDesc, Depth, DepthStencilViewDesc, Format, NativeHandle, SampleDesc, Scaling,
    SwapChainDesc, SwapEffect, Texture2dDesc, Usage, ViewDimension, Viewport, WindowDesc,
    INDEX_SIZE, WINDOW_HEIGHT, WINDOW_WIDTH,
};

#[test]
fn reference_window_is_1080_by_720() {
    assert_eq!(WINDOW_WIDTH, 1080);
    assert_eq!(WINDOW_HEIGHT, 720);
    assert_eq!(window_title(), "serenity-engine");
    assert_eq!(
        window_desc(WINDOW_WIDTH, WINDOW_HEIGHT),
        WindowDesc { width: 1080, height: 720, allow_high_dpi: true, centered: true }
    );
}

#[test]
fn swap_chain_has_the_window_size() {
    assert_eq!(
        swap_chain_desc(1080, 720),
        SwapChainDesc {
            width: 1080,
            height: 720,
            format: Format::Rgba8Unorm,
            stereo: false,
            sample: SampleDesc { count: 1, quality: 0 },
            render_target_output: true,
            buffer_count: 2,
            scaling: Scaling::Stretch,
            swap_effect: SwapEffect::FlipDiscard,
            alpha_mode: AlphaMode::Unspecified,
            flags: 0,
        }
    );
}

#[test]
fn depth_texture_has_the_window_size() {
    assert_eq!(
        depth_texture_desc(1080, 720),
        Texture2dDesc {
            width: 1080,
            height: 720,
            mip_levels: 1,
            array_size: 1,
            format: Format::D32Float,
            sample: SampleDesc { count: 1, quality: 0 },
            usage: Usage::Default,
            binding: Binding::DepthStencil,
            cpu_read: false,
            cpu_write: false,
            misc_flags: 0,
        }
    );
}

#[test]
fn targets_follow_any_window_size() {
    for (width, height) in [(1u32, 1u32), (640, 480), (0, 0), (u32::MAX, 7), (3, u32::MAX)] {
        let swap_chain = swap_chain_desc(width, height);
        let depth = depth_texture_desc(width, height);
        let view = viewport(width, height);
        assert_eq!((swap_chain.width, swap_chain.height), (width, height));
        assert_eq!((depth.width, depth.height), (width, height));
        assert_eq!((view.width, view.height), (width, height));
        assert_eq!((view.top_left_x, view.top_left_y), (0, 0));
    }
}

#[test]
fn depth_view_is_plain_two_dimensional() {
    assert_eq!(
        depth_stencil_view_desc(),
        DepthStencilViewDesc {
            format: Format::D32Float,
            dimension: ViewDimension::Texture2d,
            flags: 0,
            mip_slice: 0,
        }
    );
}

#[test]
fn viewport_covers_the_window() {
    assert_eq!(
        viewport(1080, 720),
        Viewport {
            top_left_x: 0,
            top_left_y: 0,
            width: 1080,
            height: 720,
            min_depth: Depth::Near,
            max_depth: Depth::Far,
        }
    );
}

#[test]
fn index_buffer_holds_zero_one_two() {
    let indices = index_data();
    assert_eq!(indices, vec![0u32, 1, 2]);
    let desc = index_buffer_desc(&indices).unwrap();
    assert_eq!(
        desc,
        BufferDesc {
            byte_width: 12,
            usage: Usage::Immutable,
            binding: Binding::IndexBuffer,
            cpu_read: false,
            cpu_write: false,
            misc_flags: 0,
            structure_byte_stride: 0,
        }
    );
    assert_eq!(desc.byte_width as usize, 3 * std::mem::size_of::<u32>());
    assert_eq!(INDEX_SIZE as usize, std::mem::size_of::<u32>());
}

#[test]
fn index_buffer_size_is_four_bytes_an_index() {
    assert_eq!(index_buffer_desc(&Vec::new()).unwrap().byte_width, 0);
    assert_eq!(index_buffer_desc(&vec![7u32; 5]).unwrap().byte_width, 20);
    assert_eq!(index_buffer_desc(&vec![0u32; 1000]).unwrap().byte_width, 4000);
}

#[test]
fn window_handle_resolves_for_win32_only() {
    assert_eq!(resolve_window_handle(NativeHandle::Win32 { hwnd: 0x1234 }), Some(0x1234));
    assert_eq!(resolve_window_handle(NativeHandle::Win32 { hwnd: 0 }), Some(0));
    assert_eq!(resolve_window_handle(NativeHandle::Win32 { hwnd: -1 }), Some(-1));
    assert_eq!(resolve_window_handle(NativeHandle::Other), None);
}

#[test]
fn factory_reports_to_debugger_in_debug_builds() {
    assert_eq!(factory_desc(true), FactoryDesc { debug: true });
    assert_eq!(factory_desc(false), FactoryDesc { debug: false });
}

#[test]
fn adapter_is_the_fastest() {
    assert_eq!(
        adapter_query(),
        AdapterQuery { index: 0, preference: GpuPreference::HighPerformance }
    );
}

#[test]
fn device_is_level_eleven_one() {
    assert_eq!(
        device_desc(false),
        DeviceDesc {
            driver_type: DriverType::Unknown,
            debug_layer: false,
            bgra_support: true,
            feature_level: FeatureLevel::Level11_1,
        }
    );
    assert_eq!(
        device_desc(true),
        DeviceDesc {
            driver_type: DriverType::Unknown,
            debug_layer: true,
            bgra_support: true,
            feature_level: FeatureLevel::Level11_1,
        }
    );
}
