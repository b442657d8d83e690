[package]
name = "pathtracer"
version = "0.1.0"
edition = "2021"
publish = false

[dependencies]
anyhow = "1"
clap = { version = "4", features = ["derive"] }
dyn-clonable = "*"
indicatif = { version = "0.17", features = ["rayon"] }
itertools = "*"
ordered-float = "*"
pix = "*"
png_pong = "*"
rand = "0.8"
rayon = "1"
ron = "0.8"
serde = { version = "1", features = ["derive"] }
