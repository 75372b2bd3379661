[package]
name = "vtseat"
version = "0.1.0"
edition = "2021"
publish = false

[dependencies]
anyhow = "*"
colpetto = "*"
diretto = "*"
input-linux-sys = "*"
rustix = { version = "*", features = ["fs"] }
saddle = "*"
tokio = { version = "*", features = ["macros", "rt-multi-thread", "sync", "time"] }
tokio-stream = { version = "*", features = ["sync"] }
tracing = "*"
tracing-subscriber = "*"
wgpu = "*"
