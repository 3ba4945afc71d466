[package]
name = "libclipboard"
version = "0.1.0"
edition = "2021"
publish = false

[dependencies]
cfg-if = "=1.0.5"
icrate = { version = "=0.1.2", features = ["AppKit", "AppKit_NSPasteboard", "Foundation", "Foundation_NSArray", "Foundation_NSData", "Foundation_NSString"] }
uuid = { version = "=1.29.0", features = ["v4"] }
windows = { version = "=0.52.0", features = ["Win32_Foundation", "Win32_Globalization", "Win32_Graphics_Gdi", "Win32_System_DataExchange", "Win32_System_LibraryLoader", "Win32_System_Memory", "Win32_System_Ole", "Win32_UI_WindowsAndMessaging"] }
