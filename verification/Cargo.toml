[package]
name = "gb_watcher"
version = "0.1.0"
edition = "2021"
publish = false

[dependencies]
git2 = { version = "*", default-features = false }
sha2 = "*"
filetime = "*"
log = "*"

[dev-dependencies]
tempfile = "*"
