[package]
name = "afpack"
version = "0.1.0"
edition = "2021"
publish = false

[dependencies]
applesauce = "*"
clap = { version = "4", features = ["derive"] }
trash = "*"
