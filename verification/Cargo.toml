[package]
name = "qarnot"
version = "0.1.0"
edition = "2021"
publish = false

[dependencies]
chrono = "*"
serde = { version = "*", features = ["derive"] }
serde_json = "*"
uuid = { version = "*", features = ["serde", "v4"] }
rust-ini = "*"
reqwest = { version = "*", default-features = false, features = ["json"] }
bytes = "*"
aws-sdk-s3 = { version = "*", features = ["behavior-version-latest"] }
aws-smithy-runtime-api = "*"
aws-smithy-types = "*"
