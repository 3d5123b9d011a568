[package]
name = "githooks"
version = "0.1.0"
edition = "2021"
publish = false

[dependencies]
git2 = "*"
shellexpand = "*"
gix-path = "*"
base64 = "*"
gh-emoji = "*"
which = "*"

[dev-dependencies]
tempfile = "*"
