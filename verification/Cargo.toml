[package]
name = "statusbar"
version = "0.1.0"
edition = "2021"
publish = false

[dependencies]
chrono = "*"
log = "*"
fern = "*"
xcb = { version = "=0.9.0", features = ["randr"] }
