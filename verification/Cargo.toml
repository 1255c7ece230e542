[package]
name = "net_flow"
version = "0.2.1"
edition = "2021"
publish = false

[dependencies]
serde_json = "1"
windows-core = "0.61"
windows = { version = "0.61", features = ["Data_Xml_Dom", "UI_Notifications", "Win32_Foundation", "Win32_Security", "Win32_System_LibraryLoader", "Win32_System_Threading", "Win32_UI_Shell", "Win32_UI_WindowsAndMessaging"] }
