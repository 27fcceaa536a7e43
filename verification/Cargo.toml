[package]
name = "whiskers_core"
version = "0.1.0"
edition = "2021"
publish = false

[dependencies]
fuzzy-matcher = "0.3"
tokio = { version = "1", features = ["rt"] }
open = "*"
powershell_script = "*"
mslnk = "*"
rust-embed = "*"
fs_extra = "1"
