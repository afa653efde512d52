[package]
name = "recorder"
version = "0.1.0"
edition = "2021"
publish = false

[dependencies]
serde = { version = "1", features = ["derive"] }
serde_json = "1"
parking_lot = "*"
once_cell = "*"
sysinfo = "*"
mouse_position = "*"
debug_print = "*"
