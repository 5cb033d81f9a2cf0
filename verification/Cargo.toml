[package]
name = "darkiron"
version = "0.1.0"
edition = "2021"
publish = false

[dependencies]
image = { version = "0.24", default-features = false, features = ["png"] }
serde = { version = "1", features = ["derive"] }
toml = "0.8"
log = "0.4"
simplelog = "0.12"
once_cell = "1"
retour = "0.3"
reqwest = { version = "0.11", default-features = false }
syn = { version = "2", features = ["full"] }
quote = "1"
proc-macro2 = "1"
winapi = { version = "0.3", features = ["d3d9", "d3d9types", "winnt", "minwindef"] }
windows = { version = "0.48", features = ["Win32_Foundation", "Win32_System_SystemServices", "Win32_Graphics_OpenGL", "Win32_Graphics_Gdi", "Win32_UI_WindowsAndMessaging", "Win32_System_LibraryLoader"] }
