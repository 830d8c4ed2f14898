[package]
name = "serenity_engine"
version = "0.1.0"
edition = "2021"
publish = false

[dependencies]
widestring = "=1.2.1"
raw-window-handle = "=0.4.3"
sdl2 = { version = "=0.35.2", features = ["raw-window-handle"] }
windows = { version = "=0.43.0", features = ["Win32_Foundation", "Win32_Graphics_Direct3D", "Win32_Graphics_Direct3D_Fxc", "Win32_Graphics_Direct3D11", "Win32_Graphics_Dxgi", "Win32_Graphics_Dxgi_Common"] }
