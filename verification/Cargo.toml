[package]
name = "replacer"
version = "0.1.0"
edition = "2021"
publish = false

[dependencies]
env_logger = "0.8"
handlebars = "3.5"
log = "0.4"
serde = { version = "1.0", features = ["derive"] }
serde_yaml = "0.8"
structopt = "0.3"
