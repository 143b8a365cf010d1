[package]
name = "zester"
version = "0.1.0"
edition = "2021"
publish = false

[dependencies]
sanitize-filename = "=0.6.0"
structopt = "=0.3.26"
rpassword = "=7.5.4"
dotenv = "=0.15.0"
serde = { version = "1", features = ["derive"] }
serde_json = "1"
