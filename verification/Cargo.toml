[package]
name = "rgb_interfaces"
version = "0.1.0"
edition = "2021"
publish = false

[dependencies]
amplify = "=4.7.1"
strict_encoding = "=2.7.3"
strict_types = "=2.7.2"
commit_verify = "=0.11.0"
bp-consensus = "=0.11.0"
bp-core = "=0.11.0"
rgb-std = { version = "=0.11.0-beta.9.1", features = ["fs"] }
rand = "=0.8.8"
chrono = "=0.4.45"
