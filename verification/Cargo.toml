[package]
name = "komorebi_switcher"
version = "0.1.0"
edition = "2021"
publish = false

[dependencies]
anyhow = "=1.0.104"
dirs = "=7.0.0"
egui = "=0.37.0"
egui-wgpu = { version = "=0.37.0", default-features = false }
egui-winit = { version = "=0.37.0", default-features = false }
egui_animation = "=0.14.0"
muda = "=0.21.2"
pollster = "=1.0.1"
raw-window-handle = "=0.6.2"
rfd = { version = "=0.17.2", default-features = false }
serde = { version = "=1.0.229", features = ["derive"] }
serde_json = "=1.0.154"
tracing = "=0.1.44"
tracing-appender = "=0.2.5"
tracing-subscriber = { version = "=0.3.23", features = ["env-filter"] }
tray-icon = "=0.26.1"
uds_windows = "=1.2.1"
wgpu = { version = "=30.0.1", default-features = false, features = ["dx12", "std", "wgsl"] }
windows = { version = "=0.62.2", features = ["UI_ViewManagement", "Win32_Foundation", "Win32_Graphics_Direct2D", "Win32_Graphics_Direct2D_Common", "Win32_Graphics_Direct3D", "Win32_Graphics_Direct3D11", "Win32_Graphics_DirectComposition", "Win32_Graphics_Dxgi", "Win32_Graphics_Dxgi_Common", "Win32_System_LibraryLoader", "Win32_UI_HiDpi", "Win32_UI_WindowsAndMessaging"] }
windows-registry = "=0.100.0"
winit = { version = "=0.30.13", default-features = false, features = ["rwh_06"] }
