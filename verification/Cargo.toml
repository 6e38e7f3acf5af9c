[package]
name = "dile"
version = "0.1.0"
edition = "2021"
publish = false

[dependencies]
serde_json = "1"
sys-locale = "*"
serde = { version = "1", features = ["derive"] }
thiserror = "*"
log = "0.4"
rtrb = "*"
crossbeam-channel = "0.5"
rubato = "*"
hound = "*"
cpal = "*"
evdev = "*"
