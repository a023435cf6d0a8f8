[package]
name = "custom_cursor"
version = "0.1.0"
edition = "2021"
publish = false

[dependencies]
cursor-icon = "1.1.0"
memfd = "0.6.4"
rustix = "0.38"
wayland-backend = "0.3"
wayland-client = "0.31"
x11-dl = "2.21"
x11rb = "0.13"
windows-sys = { version = "0.48", features = ["Win32_Foundation", "Win32_Graphics_Gdi", "Win32_UI_WindowsAndMessaging"] }
wasm-bindgen = "0.2"
web-sys = { version = "0.3", features = ["CanvasRenderingContext2d", "CssStyleDeclaration", "Document", "Element", "HtmlCanvasElement", "HtmlElement", "ImageData", "Window"] }
objc2 = "0.4"
icrate = { version = "0.0.4", features = ["Foundation"] }
