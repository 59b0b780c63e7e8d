[package]
name = "defendio"
version = "0.1.0"
edition = "2021"
publish = false

[dependencies]
array-init = "2"
bitflags = "2"
bracket-noise = "0.8"
bytemuck = { version = "1", features = ["derive"] }
config = { version = "0.13", default-features = false, features = ["toml"] }
itertools = "0.10"
num_enum = "0.6"
once_cell = "1"
rand = "0.8"
serde = { version = "1", features = ["derive"] }
thiserror = "1"
