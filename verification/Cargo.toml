[package]
name = "dashcat"
version = "0.2.0"
edition = "2021"
publish = false

[dependencies]
png = "0.17"
chrono = "0.4"
serde = { version = "1", features = ["derive"] }
serde_json = "1"
rusqlite = { version = "0.31", features = ["bundled"] }
clipboard-rs = "*"
windows = { version = "0.54", features = ["Win32_Foundation", "Win32_System_DataExchange", "Win32_System_Memory", "Win32_System_Registry", "Win32_System_Performance", "Win32_System_Power", "Win32_System_Threading", "Win32_UI_WindowsAndMessaging", "Win32_Graphics_Gdi", "Win32_UI_Shell", "Win32_System_LibraryLoader"] }
