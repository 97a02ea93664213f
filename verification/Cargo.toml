[package]
name = "pc_optimizer"
version = "0.1.0"
edition = "2021"
publish = false

[dependencies]
chrono = "0.4"
num_cpus = "1"
serde = { version = "1", features = ["derive"] }
serde_json = "1"
sysinfo = "*"
