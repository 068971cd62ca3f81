[package]
name = "ttgen"
version = "0.1.0"
edition = "2021"
publish = false

[dependencies]
chrono = { version = "0.4", default-features = false, features = ["clock", "std"] }
clap = "2"
env_logger = "0.7"
handlebars = "3"
log = "0.4"
num_cpus = "1"
once_cell = "1"
rayon = "1"
serde = { version = "1", features = ["derive"] }
serde_json = "1"
sha2 = "0.8"
