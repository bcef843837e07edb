[package]
name = "uhf_rfid"
version = "0.1.0"
edition = "2021"
publish = false

[dependencies]
hex = "=0.4.3"
libc = "=0.2.190"

[dependencies.clap]
version = "=4.6.7"
features = ["derive"]

[dependencies.hidapi]
version = "=2.6.7"
default-features = false
features = ["linux-native-basic-udev"]
