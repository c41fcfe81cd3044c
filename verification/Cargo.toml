[package]
name = "s3_concat"
version = "0.1.0"
edition = "2021"
publish = false

[dependencies]
clap = "2"
env_logger = "*"
quick-xml = "0.12"
regex = "1"
rusoto_core = "0.42"
rusoto_s3 = "0.42"
