[package]
name = "create_rzpack"
version = "0.1.0"
edition = "2021"
publish = false

[dependencies]
clap = { version = "*", features = ["derive"] }
colorful = "*"
dialoguer = "*"
remove_dir_all = "*"
toml = "*"
