[package]
name = "deckpanel"
version = "0.1.0"
edition = "2021"
publish = false

[dependencies]
data-url = "0.3"
image = { version = "0.25", default-features = false, features = ["jpeg", "png"] }
mirajazz = "*"
openaction = "*"
tokio = { version = "1", features = ["full"] }
tokio-util = { version = "0.7", features = ["rt"] }
futures-lite = "2"
log = "0.4"
simplelog = "0.12"
