[package]
name = "serial_echo"
version = "0.1.0"
edition = "2021"
publish = false

[dependencies]
rand = "0.8"
clap = { version = "4", features = ["derive"] }
ctrlc = "3"
serialport = { version = "4", default-features = false }
