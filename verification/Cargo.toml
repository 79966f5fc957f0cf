[package]
name = "pikchr_pl"
version = "0.1.0"
edition = "2021"
publish = false

[dependencies]
wasmtime = "=47.0.4"
wasmtime-wasi = "=47.0.4"
anyhow = "=1.0.104"
tokio = { version = "=1.53.2", features = ["sync", "time", "rt-multi-thread", "macros"] }
