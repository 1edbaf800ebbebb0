[package]
name = "smssh"
version = "0.1.0"
edition = "2021"
publish = false

[dependencies]
aws-config = "*"
aws-sdk-secretsmanager = "*"
clap = { version = "*", features = ["derive"] }
clap_complete = "*"
color-eyre = "*"
crossterm = "*"
dirs = "*"
nix = { version = "*", features = ["signal", "process", "term", "fs"] }
serde = { version = "*", features = ["derive"] }
serde_yaml = "*"
signal-hook = "*"
tempfile = "*"
tokio = { version = "*", features = ["rt"] }
