[package]
name = "singularity"
version = "0.1.0"
edition = "2021"
publish = false

[dependencies]
anyhow = "1"
bluer = { version = "*", features = ["bluetoothd"] }
fastrand = "2"
futures = "0.3"
i18n-embed = { version = "*", features = ["desktop-requester"] }
iced_futures = "*"
indexmap = "2"
rustc-hash = "*"
secure-string = "*"
serde = { version = "1", features = ["derive"] }
tokio = { version = "1", features = ["rt", "sync", "process", "time", "macros"] }
tracing = "0.1"
tracing-subscriber = "0.3"
url = "2"
urlencoding = "2"
zbus = "*"
