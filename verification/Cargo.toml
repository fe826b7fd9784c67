[package]
name = "bspatch_updater"
version = "0.1.0"
edition = "2021"
publish = false

[dependencies]
bzip2 = "*"
sha1 = "*"
serde_json = "*"
reqwest = { version = "*", default-features = false, features = ["blocking"] }
