[package]
name = "audio_output_switcher"
version = "0.1.0"
edition = "2021"
publish = false

[dependencies]
dirs = "=7.0.0"
serde = { version = "=1.0.229", features = ["derive"] }
serde_json = "=1.0.154"
windows = { version = "=0.59.0", features = [
    "Win32_Devices_FunctionDiscovery",
    "Win32_Foundation",
    "Win32_Graphics_Gdi",
    "Win32_Media_Audio",
    "Win32_System_Com",
    "Win32_System_Com_StructuredStorage",
    "Win32_System_Console",
    "Win32_System_Variant",
    "Win32_UI_Input_KeyboardAndMouse",
    "Win32_UI_Shell",
    "Win32_UI_Shell_PropertiesSystem",
    "Win32_UI_WindowsAndMessaging",
] }

[dev-dependencies]
windows-sys = { version = "=0.61.2", features = [
    "Win32_Media_Audio",
    "Win32_UI_Input_KeyboardAndMouse",
    "Win32_UI_WindowsAndMessaging",
] }
