[package]
name = "passrec"
version = "0.1.0"
edition = "2021"
publish = false

[dependencies]
blake2 = "*"
rusqlite = { version = "*", features = ["bundled"] }
time = "*"
clap = "*"
