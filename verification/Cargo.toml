[package]
name = "agility_camp"
version = "0.1.0"
edition = "2021"
publish = false

[dependencies]
rand = "=0.8.8"
bevy = { version = "=0.7.0", default-features = false, features = ["render", "bevy_winit", "png", "x11"] }
# Not used by any code of this crate. The derive crates of bevy 0.7 need the
# `full` feature of syn 1 and do not ask for it; darling 0.13 does, and with
# it they build.
darling = "=0.13.4"
