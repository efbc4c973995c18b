[package]
name = "iota_client"
version = "0.1.0"
edition = "2021"
publish = false

[dependencies]
blake2 = "*"
num_cpus = "*"
bee-pow = "*"
serde = { version = "*", features = ["derive"] }
reqwest = { version = "*", default-features = false, features = ["blocking", "json"] }

[dev-dependencies]
hex = "*"
