[package]
name = "distill"
version = "0.1.0"
edition = "2021"
publish = false

[dependencies]
anyhow = "=1.0.104"
aws-config = { version = "=1.12.0", features = ["behavior-version-latest"] }
aws-sdk-bedrockruntime = "=1.148.0"
aws-sdk-s3 = "=1.152.0"
aws-sdk-transcribe = "=1.122.0"
aws-types = "=1.6.0"
clap = { version = "=4.6.7", features = ["derive"] }
config = "=0.14.1"
dialoguer = "=0.11.0"
docx-rs = "=0.4.22"
infer = "=0.15.0"
reqwest = "=0.12.28"
serde_json = "=1.0.154"
shellexpand = "=3.1.2"
spinoff = "=0.8.0"
tokio = { version = "=1.54.1", features = ["full"] }
uuid = { version = "=1.29.0", features = ["v4"] }
