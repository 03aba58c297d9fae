[package]
name = "lv2_state_path"
version = "0.1.0"
edition = "2021"
publish = false

[dependencies]
lv2-core = "*"
lv2-sys = "*"
urid = "*"
