[package]
name = "tey_sh"
version = "0.1.0"
edition = "2021"
publish = false

[dependencies]
rand = { version = "0.8", features = ["small_rng"] }
ansi-escapes = "*"
clap = { version = "4", features = ["cargo"] }
colored = "*"
markdown = "*"
strip-ansi-escapes = "*"
wasm-bindgen = "*"
web-sys = { version = "*", features = ["Window", "Document", "Element", "HtmlElement", "UiEvent", "EventTarget"] }
xterm-js-rs = "*"
