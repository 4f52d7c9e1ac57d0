[package]
name = "themey"
version = "0.1.0"
edition = "2021"
publish = false

[dependencies]
clap = { version = "*", features = ["derive"] }
clap_complete = "*"
dialoguer = "*"
git2 = { version = "*", default-features = false }
