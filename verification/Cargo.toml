[package]
name = "multiplex"
version = "0.1.0"
edition = "2021"
publish = false

[dependencies]
anyhow = "1"
axum = "0.6"
futures = "0.3"
http = "0.2"
hyper = "0.14"
log = "0.4"
tonic = "0.9"
tower = "0.4"
tower-http = { version = "0.4", features = ["cors"] }
