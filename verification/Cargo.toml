[package]
name = "account_value"
version = "0.1.0"
edition = "2021"
publish = false

[dependencies]
gloo = "*"
serde = { version = "1", features = ["derive"] }
serde_json = "1"
wasm-bindgen = "0.2"
wasm-bindgen-futures = "0.4"
web-sys = { version = "0.3", features = ["Document", "DomTokenList", "Element", "Event", "EventTarget", "HtmlAnchorElement", "HtmlButtonElement", "HtmlDivElement", "HtmlElement", "HtmlImageElement", "HtmlInputElement", "HtmlParagraphElement", "HtmlSpanElement", "Node", "Window"] }
