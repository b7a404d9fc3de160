[package]
name = "flashcut"
version = "0.1.0"
edition = "2021"
publish = false

[dependencies]
dashmap = "5"
uuid = { version = "1", features = ["v4"] }
tokio = { version = "1", features = ["full"] }
axum = { version = "0.6", features = ["ws"] }
tower-http = { version = "0.4", features = ["cors", "trace"] }
tracing = "0.1"
tracing-subscriber = { version = "0.3", features = ["env-filter", "fmt"] }
anyhow = "1"
serde = { version = "1", features = ["derive"] }
serde_json = "1"
futures = "0.3"
thiserror = "1"
wasm-bindgen = "0.2"
wasm-bindgen-futures = "0.4"
js-sys = "0.3"
console_error_panic_hook = "0.1"
leptos = { version = "0.6", features = ["csr"] }
web-sys = { version = "0.3", features = ["console", "Window", "Document", "Element", "HtmlElement", "HtmlInputElement", "HtmlAnchorElement", "HtmlVideoElement", "HtmlMediaElement", "File", "FileList", "Blob", "BlobPropertyBag", "Url", "Event", "EventTarget", "KeyboardEvent", "MouseEvent", "Response", "Storage", "Node"] }
