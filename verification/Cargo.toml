[package]
name = "deployer"
version = "0.1.0"
edition = "2021"
publish = false

[dependencies]
percent-encoding = "*"
md-5 = "*"
base64 = "*"
mime_guess = "*"
serde = { version = "*", features = ["derive"] }
serde_json = "*"
tokio = { version = "*", features = ["rt-multi-thread", "macros", "time", "process", "io-util", "sync", "signal", "fs"] }
aws-config = "*"
aws-sdk-s3 = "*"
aws-sdk-sqs = "*"
aws-sdk-cloudwatch = "*"
reqwest = { version = "*", default-features = false, features = ["json", "rustls-tls"] }
brotli = "*"
tar = "*"
tempfile = "*"
uuid = { version = "*", features = ["v4"] }
