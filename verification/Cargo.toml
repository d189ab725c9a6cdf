[package]
name = "mandelbrot"
version = "0.1.0"
edition = "2021"
publish = false

[dependencies]
wasm-bindgen = "=0.2.92"
js-sys = "=0.3.69"
console_error_panic_hook = "0.1.7"

[dependencies.web-sys]
version = "=0.3.69"
features = [
    "EventTarget",
    "Node",
    "Element",
    "HtmlElement",
    "HtmlCanvasElement",
    "Window",
    "Document",
    "WebGlRenderingContext",
    "WebGlShader",
    "WebGlProgram",
    "WebGlBuffer",
    "WebGlUniformLocation",
]
