[package]
name = "image_viewer"
version = "0.1.0"
edition = "2021"
publish = false

[dependencies]
wasm-bindgen = "0.2"
web-sys = { version = "0.3", features = ["CanvasRenderingContext2d", "CssStyleDeclaration", "Document", "Element", "Event", "EventTarget", "HtmlButtonElement", "HtmlCanvasElement", "HtmlElement", "HtmlImageElement", "MouseEvent", "Node", "WheelEvent", "Window"] }
