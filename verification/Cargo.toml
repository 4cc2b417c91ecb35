[package]
name = "process_manager"
version = "0.1.0"
edition = "2021"
publish = false

[dependencies]
chrono = "0.4"
clap = { version = "4", features = ["derive"] }
dialoguer = "*"
duct = "*"
json5 = "*"
nix = { version = "*", features = ["process"] }
prettytable-rs = "*"
serde = { version = "1", features = ["derive"] }
sysinfo = "*"
