[package]
name = "splitbot"
version = "0.1.0"
edition = "2021"
publish = false

[dependencies]
chashmap = "*"
rand = "*"
dotenv = "*"
livesplit-core = "*"
