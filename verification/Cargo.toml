[package]
name = "sematext2psql"
version = "0.1.0"
edition = "2021"
publish = false

[dependencies]
json = "=0.12.4"
chrono = "=0.4.45"
clap = { version = "=4.6.7", features = ["derive"] }
postgres = { version = "=0.19.14", features = ["with-chrono-0_4"] }
indicatif = "=0.18.6"
