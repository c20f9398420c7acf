[package]
name = "tiered_render"
version = "0.1.0"
edition = "2021"
publish = false

[dependencies]
image = { version = "0.24", default-features = false }
imageproc = { version = "0.23", default-features = false }
rusttype = "0.9"
serde = { version = "1", features = ["derive"] }
js-sys = "0.3"
wasm-bindgen = { version = "0.2", features = ["serde-serialize"] }
wasm-bindgen-futures = "0.4"
web-sys = { version = "0.3", features = ["CanvasRenderingContext2d", "CssStyleDeclaration", "Document", "Element", "HtmlCanvasElement", "HtmlElement", "ImageData", "Node", "Request", "Response", "Window"] }
