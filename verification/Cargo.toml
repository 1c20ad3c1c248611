[package]
name = "niko"
version = "0.1.0"
edition = "2021"
publish = false

[dependencies]
glow = "*"
js-sys = "*"
wasm-bindgen = "*"
web-sys = { version = "*", features = ["Window", "Document", "Element", "HtmlCanvasElement", "HtmlImageElement", "WebGl2RenderingContext", "KeyboardEvent", "EventTarget", "Event", "console", "Performance"] }
