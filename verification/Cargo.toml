[package]
name = "pano-native-components"
version = "0.1.0"
edition = "2021"
publish = false

[dependencies]
ashpd = { version = "=0.13.13", features = ["file_chooser", "settings"] }
discord-rich-presence = "=1.1.0"
futures-util = "=0.3.34"
interprocess = { version = "=2.4.7", features = ["tokio"] }
jni = "=0.21.1"
ksni = "=0.3.7"
nix = { version = "=0.31.3", features = ["socket"] }
notify-rust = "=4.18.2"
serde = { version = "=1.0.229", features = ["derive"] }
serde_json = "=1.0.154"
tokio = { version = "=1.54.1", features = ["rt", "sync", "time", "macros", "io-util"] }
zbus = "=5.19.0"
