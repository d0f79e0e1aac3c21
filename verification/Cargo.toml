[package]
name = "elastic_ermine"
version = "0.1.0"
edition = "2021"
publish = false

[dependencies]
reqwest = { version = "0.12", default-features = false, features = ["rustls-tls"] }
aws-sigv4 = "1"
aws-credential-types = "1"
aws-config = "1"
serde_json = "1"
http = "1"
tokio = { version = "1", features = ["rt", "macros", "net", "time"] }

[dev-dependencies]
rcgen = "0.13"
