[package]
name = "cosim_bridge"
version = "0.1.0"
edition = "2021"
publish = false

[dependencies]
svdpi = { version = "=0.0.5", features = ["vpi"] }
