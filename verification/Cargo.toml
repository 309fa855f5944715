[package]
name = "rproxy"
version = "0.1.0"
edition = "2021"
publish = false

[dependencies]
http = "=1.5.0"
globset = "=0.4.21"
governor = "=0.10.4"
rand = "=0.9.5"
hyper = { version = "=1.12.0", features = ["server", "client", "http1", "http2"] }
hyper-util = { version = "=0.1.21", features = ["tokio", "server", "server-auto", "http1", "http2"] }
http-body-util = "=0.1.5"
bytes = "=1.12.1"
tokio = { version = "=1.54.1", features = ["rt-multi-thread", "macros", "net", "time", "sync", "io-util", "fs"] }
tokio-rustls-acme = "=0.9.1"
tokio-stream = { version = "=0.1.19", features = ["net"] }
tokio-tungstenite = "=0.30.0"
futures-util = "=0.3.34"
futures = "=0.3.34"
tracing = "=0.1.44"
tracing-subscriber = { version = "=0.3.23", features = ["env-filter"] }
moka = { version = "=0.12.16", features = ["future"] }
thiserror = "=2.0.21"
bollard = "=0.21.1"
chrono = { version = "=0.4.45", default-features = false, features = ["clock", "std", "serde"] }
clap = { version = "=4.6.7", features = ["derive"] }
colored = "=3.1.1"
hdrhistogram = { version = "=7.6.0", default-features = false }
indicatif = "=0.18.6"
reqwest = { version = "=0.12.28", default-features = false, features = ["rustls-tls", "gzip", "brotli"] }
serde = { version = "=1.0.229", features = ["derive"] }
serde_json = "=1.0.154"
tabled = "=0.22.0"
toml = "=1.1.8"
anyhow = "=1.0.104"
