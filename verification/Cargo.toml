[package]
name = "wfs2map"
version = "0.1.0"
edition = "2021"
publish = false

[dependencies]
rand = "=0.8.8"
url = "=2.5.8"
hyper = { version = "=1.12.0", features = ["client", "http1"] }
hyper-util = { version = "=0.1.21", features = ["tokio"] }
http-body-util = "=0.1.5"
axum = "=0.7.9"
axum-swagger-ui = "=0.3.0"
axum-jwks = "=0.12.0"
tokio = { version = "=1.54.1", features = ["full"] }
