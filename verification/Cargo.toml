[package]
name = "declarative_routeros"
version = "0.1.0"
edition = "2021"
publish = false

[dependencies]
clap = { version = "*", features = ["derive"] }
rpassword = "*"
ssh2 = "*"
tracing = "*"
