[package]
name = "jenkins_client"
version = "0.1.0"
edition = "2021"
publish = false

[dependencies]
form_urlencoded = "=1.2.2"
reqwest = { version = "=0.13.5", default-features = false, features = ["json"] }
tokio = { version = "=1.53.2", features = ["time", "rt"] }
serde = { version = "=1.0.229", features = ["derive"] }
serde_json = "=1.0.151"
