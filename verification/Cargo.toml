[package]
name = "ami_uploader"
version = "0.1.0"
edition = "2021"
publish = false

[dependencies]
console = "=0.15.11"
futures = "=0.3.34"
indicatif = "=0.17.11"
rusoto_core = "=0.47.0"
rusoto_ec2 = "=0.47.0"
rusoto_s3 = "=0.47.0"
structopt = "=0.3.26"
tokio = { version = "=1.54.1", features = ["macros", "rt-multi-thread"] }
