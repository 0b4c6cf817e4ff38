[package]
name = "template_filters"
version = "0.1.0"
edition = "2021"
publish = false

[dependencies]
arc-swap = "*"
hashbrown = "*"
md5 = "*"
time = { version = "*", features = ["formatting"] }
timeago = "*"
unix_mode = "*"
askama = "*"
