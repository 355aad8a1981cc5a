[package]
name = "journalctl_logger"
version = "0.1.0"
edition = "2021"
publish = false

[dependencies]
shlex = "1"
serde = { version = "1", features = ["derive"] }
rocket = { version = "0.5", features = ["json"] }
rocket_okapi = { version = "0.9", features = ["swagger"] }
schemars = "0.8"
structopt = "0.3"
reqwest = { version = "0.12", default-features = false, features = ["blocking", "json"] }
exitfailure = "0.5"
