[package]
name = "material_color_utilities"
version = "0.1.0"
edition = "2021"
publish = false

[dependencies]
csscolorparser = "*"
clap = { version = "*", features = ["derive"] }
console = "*"
dialoguer = "*"
human-panic = "*"
serde = { version = "*", features = ["derive"] }
thiserror = "*"
