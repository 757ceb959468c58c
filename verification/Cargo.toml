[package]
name = "sp1_air"
version = "0.1.0"
edition = "2021"
publish = false

[dependencies]
p3-air = "=0.1.0"
p3-field = "=0.1.0"
p3-matrix = "=0.1.0"
p3-baby-bear = "=0.1.0"
itertools = "=0.13.0"
serde = { version = "=1.0.229", features = ["derive"] }
anyhow = "=1.0.104"
async-trait = "=0.1.92"
futures = "=0.3.34"
indicatif = "=0.17.11"
reqwest = { version = "=0.12.28", default-features = false, features = ["stream"] }
