[package]
name = "bbsl"
version = "0.1.0"
edition = "2021"
publish = false

[dependencies]
rand = "0.8"
xkbcommon = "*"
users = "*"
nix = "*"
wayland-client = "*"
wayland-protocols = { version = "*", features = ["client"] }
pam-client = "*"
derive_builder = "*"
