[package]
name = "proxy_ingress"
version = "0.1.0"
edition = "2021"
publish = false

[dependencies]
log = "=0.4.34"
rustls = { version = "=0.19.1", features = ["dangerous_configuration"] }
webpki-roots = "=0.21.1"
tokio = { version = "=1.54.1", features = ["net", "rt-multi-thread", "io-util", "macros", "time"] }
tokio-rustls = "=0.22.0"
