[package]
name = "botlib"
version = "0.1.0"
edition = "2021"
publish = false

[dependencies]
chrono = { version = "0.4", default-features = false, features = ["std", "clock"] }
json = "0.12"
reqwest = { version = "0.12", default-features = false, features = ["blocking"] }
clap = "2"
config = { version = "0.14", default-features = false, features = ["yaml"] }
yaml-rust = "0.4"
slack = "*"
fern = "0.6"
log = "0.4"
