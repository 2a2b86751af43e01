[package]
name = "launch_control"
version = "0.1.0"
edition = "2021"
publish = false

[dependencies]
futures = "*"
hidapi = "*"
system76_ectool = { version = "*", features = ["std", "hidapi"] }
tokio = { version = "*", features = ["macros", "rt", "time"] }
tokio-udev = "*"
