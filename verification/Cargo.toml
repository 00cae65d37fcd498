[package]
name = "sheepit"
version = "0.1.0"
edition = "2021"
publish = false

[dependencies]
clap = { version = "4", features = ["derive"] }
clap_complete_command = "*"
git2 = { version = "*", default-features = false }
git2-ext = "*"
lenient_semver = "0.4"
parse-git-url = "*"
semver = "1"
serde = { version = "1", features = ["derive"] }
shellexpand = "3"
tempfile = "3"
toml = "0.8"
