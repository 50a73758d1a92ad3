[package]
name = "repo_fetch"
version = "0.1.0"
edition = "2021"
publish = false

[dependencies]
git2 = "0.20"
dotenvy = "0.15"
tokio = { version = "1", features = ["rt"] }
