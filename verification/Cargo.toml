[package]
name = "rama"
version = "0.1.0"
edition = "2021"
publish = false

[dependencies]
h2 = "0.4"
headers = "0.4"
http = "1"
hyper = { version = "1", features = ["http1", "http2", "server"] }
hyper-util = { version = "0.1", features = ["tokio", "server", "server-auto", "http1", "http2"] }
pin-project-lite = "0.2"
tokio = { version = "1", features = ["macros", "rt", "io-util", "sync", "time"] }
tracing = "0.1"
