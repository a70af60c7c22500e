[package]
name = "gengine_clipboard"
version = "0.1.0"
edition = "2021"
publish = false

[dependencies]
raw-window-handle = "=0.6.2"
x11rb = "=0.14.0"
smithay-client-toolkit = { version = "=0.21.1", default-features = false, features = ["calloop"] }
wayland-backend = { version = "=0.3.17", features = ["client_system", "dlopen"] }
wasm-bindgen = "=0.2.129"
js-sys = "=0.3.106"
web-sys = { version = "=0.3.106", features = ["Blob", "ClipboardEvent", "DataTransfer", "DataTransferItem", "DataTransferItemList", "Document", "Event", "EventTarget", "File", "FileReader", "Window"] }
windows = { version = "=0.58.0", features = ["Win32_Foundation", "Win32_System_DataExchange", "Win32_System_Memory", "Win32_UI_Shell"] }
