[package]
name = "git_prompt"
version = "0.1.0"
edition = "2021"
publish = false

[dependencies]
colored = "=3.1.1"
git2 = { version = "=0.20.4", default-features = false }

[dev-dependencies]
tempfile = "=3.27.0"
