[package]
name = "rpkl"
version = "0.1.0"
edition = "2021"
publish = false

[dependencies]
rmpv = "1"
rmp-serde = "1"
serde = { version = "1", features = ["derive"] }
dunce = "1"
clap = { version = "4", features = ["derive"] }
