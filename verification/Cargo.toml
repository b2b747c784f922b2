[package]
name = "stack_nails"
version = "0.1.0"
edition = "2021"
publish = false

[dependencies]
base64 = "=0.13.1"
rand = "=0.8.8"
url = "=2.5.8"
anyhow = "=1.0.104"
thiserror = "=1.0.69"
clap = { version = "=4.6.7", features = ["derive"] }
tokio = { version = "=1.54.1", features = ["macros", "rt-multi-thread", "time", "net"] }
kube = { version = "=0.98.0", features = ["runtime", "derive", "client"] }
kube-runtime = "=0.98.0"
k8s-openapi = { version = "=0.24.0", features = ["latest"] }
schemars = "=0.8.22"
serde = { version = "=1.0.229", features = ["derive"] }
serde_json = "=1.0.154"
serde_yaml = "=0.9.34"
tracing = "=0.1.44"
tracing-subscriber = "=0.3.23"
dioxus = { version = "=0.6.3", default-features = false, features = ["macro", "html", "signals", "hooks"] }
dioxus-ssr = "=0.6.2"
axum = "=0.7.9"
axum-extra = { version = "=0.9.6", features = ["typed-routing"] }
tower-http = { version = "=0.6.11", features = ["fs"] }
tower-livereload = "=0.9.6"
wasm-bindgen = "=0.2.130"
web-sys = { version = "=0.3.107", features = ["Window", "Document", "Element", "HtmlElement", "Event", "EventTarget", "console"] }
futures = "=0.3.34"
