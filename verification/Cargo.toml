[package]
name = "facewinunlock"
version = "0.1.0"
edition = "2021"
publish = false

[dependencies]
uuid = { version = "1", features = ["v4"] }
encoding_rs = "0.8"
log = "0.4"
simplelog = "0.12"
lazy_static = "1"
serde = { version = "1", features = ["derive"] }
serde_json = "1"
bincode = "1"
r2d2 = "0.8"
r2d2_sqlite = { version = "*", features = ["bundled"] }
opencv = "*"
windows = { version = "0.61", features = ["Win32_Foundation", "Win32_Storage_FileSystem", "Win32_System_Pipes", "Win32_System_RemoteDesktop", "Win32_System_Registry", "Win32_System_Com", "Win32_System_LibraryLoader", "Win32_Graphics_Gdi", "Win32_UI_WindowsAndMessaging", "Win32_Security"] }
