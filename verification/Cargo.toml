[package]
name = "pathtracer"
version = "0.1.0"
edition = "2021"
publish = false

[dependencies]
rand = "0.8"
rayon = "1"
serde = { version = "1", features = ["derive"] }
serde_yaml = "0.8"
failure = "0.1"

[dev-dependencies]
quickcheck = { version = "1", default-features = false }
