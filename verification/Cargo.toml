[package]
name = "winkernl"
version = "0.1.0"
edition = "2021"
publish = false

[dependencies]
x86_64 = { version = "=0.15.5", default-features = false, features = ["instructions"] }
iced-x86 = { version = "=1.22.0", default-features = false, features = ["std", "decoder", "exhaustive_enums"] }
winreg = "*"
