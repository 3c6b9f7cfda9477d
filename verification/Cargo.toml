[package]
name = "relay_bot"
version = "0.1.0"
edition = "2021"
publish = false

[dependencies]
regex = "=1.13.1"
rustc-serialize = "=0.3.25"
irc = { version = "=1.1.0", default-features = false, features = ["json_config"] }
hyper = "=0.10.16"
log = "=0.4.34"
fern = "=0.7.1"
tokio = { version = "=1.54.1", features = ["rt"] }
futures-util = { version = "=0.3.34", default-features = false }
