[package]
name = "loco"
version = "0.1.0"
edition = "2021"
publish = false

[dependencies]
anyhow = "*"
colored = "*"
config = "*"
serde = "*"
serde_derive = "*"
spinners = "*"
structopt = "*"
xdg = "*"
