[package]
name = "browser_wpe"
version = "0.1.0"
edition = "2021"
publish = false

[dependencies]
bytemuck = "=1.25.2"
executor-core = "=0.7.1"
futures-timer = "=3.0.4"
libloading = "=0.9.0"
num-traits = "=0.2.19"
serde = { version = "=1.0.229", features = ["derive"] }
serde_json = "=1.0.154"
tracing = "=0.1.44"
waterui-core = "=0.5.1"
waterui-graphics = "=0.5.1"
wgpu = "=29.0.4"
wgpu-external-frame = "=0.1.1"
