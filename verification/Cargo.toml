[package]
name = "blawgd"
version = "0.1.0"
edition = "2021"
publish = false

[dependencies]
anyhow = "1"
async-lock = "2"
async-trait = "0.1"
chrono = "0.4"
console_error_panic_hook = "0.1"
contracts = "0.6"
cosmos-sdk-proto = "*"
gloo = "*"
grpc-web-client = "*"
prost = "*"
reqwest = { version = "*", default-features = false, features = ["json"] }
serde = { version = "1", features = ["derive"] }
serde_json = "1"
tendermint = "*"
tendermint-light-client = "*"
tendermint-rpc = "*"
tiny-bip39 = "0.8"
wasm-bindgen = "0.2"
wasm-bindgen-futures = "0.4"
web-sys = { version = "0.3", features = ["Window", "Document", "Element", "HtmlElement", "Location", "HtmlInputElement", "HtmlTextAreaElement", "HtmlImageElement", "Storage", "console"] }
