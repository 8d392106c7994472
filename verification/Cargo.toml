[package]
name = "moon"
version = "0.1.0"
edition = "2021"
publish = false

[dependencies]
nalgebra = "*"
tobj = "3"
wasm-bindgen = "0.2"
web-sys = { version = "0.3", features = ["Document", "Element", "HtmlCanvasElement", "HtmlImageElement", "WebGl2RenderingContext", "WebGlBuffer", "WebGlProgram", "WebGlShader", "WebGlTexture", "WebGlUniformLocation", "WebGlVertexArrayObject", "Window"] }
