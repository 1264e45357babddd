[package]
name = "trustfall_pandascore_adapter"
version = "0.1.0"
edition = "2021"
publish = false

[dependencies]
compact_str = "*"
pandascore = "*"
thiserror = "*"
time = { version = "*", features = ["formatting"] }
tokio = { version = "*", features = ["rt"] }
trustfall = "*"
