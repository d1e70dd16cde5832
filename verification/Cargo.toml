[package]
name = "elogbook"
version = "0.1.0"
edition = "2021"
publish = false

[dependencies]
anyhow = "1"
chrono = "0.4"
gloo-net = { version = "*", features = ["http", "json"] }
gloo-timers = "*"
html-escape = "*"
js-sys = "*"
pulldown-cmark = "*"
serde = { version = "1", features = ["derive"] }
wasm-bindgen = "*"
wasm-bindgen-futures = "*"
web-sys = { version = "*", features = ["Document", "Element", "File", "FormData", "HtmlElement", "Request", "RequestInit", "Response", "Window", "console"] }
yew = { version = "*", features = ["csr"] }
