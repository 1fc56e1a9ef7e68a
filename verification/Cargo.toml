[package]
name = "system_tool"
version = "0.1.0"
edition = "2021"
publish = false

[dependencies]
chrono = "*"
relm4 = { version = "*", features = ["libadwaita"] }
system_shutdown = "*"
