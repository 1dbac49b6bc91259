[package]
name = "radiance"
version = "0.1.0"
edition = "2021"
publish = false

[dependencies]
anyhow = "1"
array-init = "2"
bincode = "1"
bytemuck = { version = "1", features = ["derive"] }
clap = { version = "4", features = ["derive"] }
glam = { version = "0.28", features = ["bytemuck", "serde"] }
kdam = { version = "0.5", features = ["rayon"] }
naga = "22"
png = "0.17"
rayon = "1"
serde = { version = "1", features = ["derive"] }
thiserror = "1"
tokio = { version = "1", features = ["rt-multi-thread", "macros", "fs"] }
toml = "0.8"
wgpu = { version = "22", features = ["glsl"] }
