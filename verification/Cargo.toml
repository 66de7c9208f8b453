[package]
name = "cvue"
version = "0.1.0"
edition = "2021"
publish = false

[dependencies]
url = "*"
clap = { version = "*", features = ["derive"] }
colored = "*"
dialoguer = "*"
indicatif = "*"
serde = { version = "*", features = ["derive"] }
serde_yaml = "*"
tabled = "*"
terminal_size = "*"
unicode-width = "*"
