[package]
name = "geoplegma"
version = "0.1.0"
edition = "2021"
publish = false

[dependencies]
geo = "=0.33.1"
h3o = { version = "=0.11.0", features = ["geo"] }
rand = "=0.8.8"
once_cell = "=1.21.4"
thiserror = "=1.0.69"
tracing = "=0.1.44"
dggal = "*"
