[package]
name = "reteam"
version = "0.1.0"
edition = "2021"
publish = false

[dependencies]
serde_json = "*"
serde = { version = "*", features = ["derive"] }
envy = "*"
env_logger = "*"
structopt = "*"
reqwest = { version = "*", default-features = false, features = ["blocking", "json"] }
