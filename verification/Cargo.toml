[package]
name = "rpiapptmon"
version = "0.1.0"
edition = "2021"
publish = false

[dependencies]
i2cdev = "=0.6.2"
rppal = "=0.22.1"
structopt = "=0.3.26"
serde = { version = "=1.0.229", features = ["derive"] }
reqwest = { version = "=0.13.5", default-features = false, features = ["blocking", "json"] }
