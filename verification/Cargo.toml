[package]
name = "settings-committer"
version = "0.1.0"
edition = "2021"
publish = false

[dependencies]
http = "0.2"
log = "0.4"
serde_json = "1"
simplelog = "0.7"
snafu = "0.6"
