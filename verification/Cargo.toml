[package]
name = "session_launch"
version = "0.2.0"
edition = "2021"
publish = false

[dependencies]
dbus = { version = "=0.9.12", features = ["vendored", "stdfd"] }
dbus-tree = "=0.9.2"
os_pipe = "=1.2.3"
