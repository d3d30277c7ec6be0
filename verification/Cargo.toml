[package]
name = "interstellar_triangulum"
version = "0.1.0"
edition = "2021"
publish = false

[dependencies]
anyhow = "1"
bytemuck = { version = "1", features = ["derive"] }
clap = { version = "4", features = ["derive"] }
config = { version = "*", default-features = false, features = ["toml"] }
hound = "3"
image = { version = "0.25", default-features = false, features = ["png", "jpeg"] }
num_cpus = "1"
pollster = "*"
regex = "1"
serde = { version = "1", features = ["derive"] }
serde_json = "1"
sha2 = "0.10"
symphonia = "0.5"
sysinfo = "*"
unicode-segmentation = "1"
wgpu = "27"
