[package]
name = "laravox"
version = "0.1.0"
edition = "2021"
publish = false

[dependencies]
anyhow = "1"
mlua = { version = "0.10", features = ["lua54", "vendored", "serialize"] }
raylib = "5"
zip = "2"
renet = "*"
renet_netcode = "*"
rmp-serde = "1"
serde = { version = "1", features = ["derive"] }
serde-value = "0.7"
serde_json = "1"
rfd = "*"
mimalloc = "0.1"
darling = "0.20"
syn = { version = "2", features = ["full"] }
quote = "1"
proc-macro2 = "1"
winit = "0.28"
gilrs = "0.10"
