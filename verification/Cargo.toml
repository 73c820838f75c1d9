[package]
name = "kiwi_admin"
version = "0.1.0"
edition = "2021"
publish = false

[dependencies]
url = "=2.5.8"
rand = "=0.8.8"
imagesize = "=0.13.0"
serde_urlencoded = "=0.7.1"
serde = { version = "=1.0.229", features = ["derive"] }
serde_json = "=1.0.151"
http = "=0.2.12"
headers = "=0.3.9"
mime = "0.3"
log = "0.4"
thiserror = "1"
enum-iterator = "=1.5.0"
wasm-bindgen = "=0.2.129"
js-sys = "0.3"
web-sys = { version = "=0.3.106", features = ["Window", "Performance", "Document", "Element", "File", "FormData", "HtmlFormElement", "HtmlSelectElement", "MouseEvent", "FocusEvent"] }
wasm-logger = "=0.2.0"
yew = { version = "=0.17.4", default-features = false, features = ["web_sys"] }
yew-router = "=0.14.0"
