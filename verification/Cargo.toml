[package]
name = "stl_weight"
version = "0.1.0"
edition = "2021"
publish = false

[dependencies]
actix-web = "4"
actix-cors = "*"
actix-multipart = "*"
futures = "0.3"
serde = { version = "1", features = ["derive"] }
serde_json = "1"
stl_io = "*"
tempfile = "3"
