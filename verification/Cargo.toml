[package]
name = "magicpak"
version = "0.1.0"
edition = "2021"
publish = false

[dependencies]
log = "0.4"
nix = { version = "*", features = ["process", "ptrace", "signal"] }
tempfile = "3"
tracing = "0.1"
which = "*"
