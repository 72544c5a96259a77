[package]
name = "elm_torture"
version = "0.1.0"
edition = "2021"
publish = false

[dependencies]
serde = { version = "=1.0.229", features = ["derive"] }
serde_json = "=1.0.151"
tokio = { version = "=1.53.2", features = ["rt-multi-thread", "net"] }
warp = { version = "=0.4.3", features = ["server"] }
futures = "=0.3.34"
crossbeam = "=0.8.5"
which = "=8.0.6"
wait-timeout = "=0.2.1"
humantime = "=2.4.0"
indented = "=0.1.0"
tempfile = "=3.27.0"
