[package]
name = "frame_relay"
version = "0.1.0"
edition = "2021"
publish = false

[dependencies]
crabgrab = { version = "=0.3.9", features = ["metal"] }
glam = "=0.22.0"
image = { version = "=0.25.10", default-features = false, features = ["png"] }
itertools = "=0.12.1"
macaw = "=0.18.6"
metal = "=0.27.0"
puffin = "=0.19.1"
puffin_http = "=0.16.1"
tokio = { version = "=1.54.1", features = ["macros", "rt-multi-thread", "sync", "time"] }
