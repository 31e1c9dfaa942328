[package]
name = "osu_format"
version = "0.1.0"
edition = "2021"
publish = false

[dependencies]
half = "*"
tokio = { version = "*", features = ["macros", "rt-multi-thread", "fs"] }
winreg = "*"
