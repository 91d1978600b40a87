[package]
name = "webds"
version = "0.1.0"
edition = "2021"
publish = false

[dependencies]
clap = "4"
log = "0.4"
env_logger = "0.11"
axum = { version = "0.8", features = ["ws"] }
hyper = { version = "1", features = ["server", "http1", "http2"] }
hyper-util = { version = "0.1", features = ["tokio", "server-auto", "http1", "http2", "service"] }
tokio = { version = "1", features = ["full"] }
tokio-rustls = "0.26"
rustls-pemfile = "2"
tower-service = "0.3"
wayland-client = "0.31"
wayland-protocols-wlr = { version = "0.3", features = ["client"] }
wayland-protocols-misc = { version = "0.3", features = ["client"] }
xkbcommon = "0.8"
memfd = "0.6"
memmap2 = "0.9"
openh264 = "*"
