[package]
name = "rustretro"
version = "0.1.0"
edition = "2021"
publish = false

[dependencies]
wasmtime = { version = "33", default-features = false, features = ["runtime", "cranelift", "wat", "std"] }
serde = { version = "1", features = ["derive"] }
serde_json = "1"
structopt = "0.3"
winit = "0.25"
wgpu = "0.9"
futures = "0.3"
bytemuck = { version = "1", features = ["derive"] }
native-dialog = "0.5"
nestadia = "*"
proc-macro2 = "1"
quote = "1"
syn = { version = "2", features = ["full"] }
