[package]
name = "gscp"
version = "0.1.0"
edition = "2021"
publish = false

[dependencies]
tame-gcs = "*"
http = "*"
tame-oauth = "*"
reqwest = { version = "*", default-features = false, features = ["blocking", "rustls-tls"] }
structopt = "*"
anyhow = "*"
