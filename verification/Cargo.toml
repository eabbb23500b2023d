[package]
name = "altjack"
version = "0.1.0"
edition = "2021"
publish = false

[dependencies]
anyhow = "=1.0.104"
clap = "=4.6.7"
hidapi = { version = "=2.6.7", default-features = false, features = ["linux-native-basic-udev"] }
humantime = "=2.4.0"
nusb = "=0.1.14"
once_cell = "=1.21.4"
serde = { version = "=1.0.229", features = ["derive"] }
serde_json = "=1.0.151"
