[package]
name = "vehicle_scene"
version = "0.1.0"
edition = "2021"
publish = false

[dependencies]
cgmath = "0.18"
gloo-console = "0.3"
js-sys = "0.3"
serde_json = "1"
wasm-bindgen = "0.2"

[dependencies.web-sys]
version = "0.3"
features = ["Document", "Element", "EventTarget", "HtmlCanvasElement", "KeyboardEvent", "WebGl2RenderingContext", "WebGlBuffer", "WebGlProgram", "WebGlShader", "WebGlUniformLocation", "Window"]
