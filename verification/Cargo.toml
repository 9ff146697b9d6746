[package]
name = "tamperlog"
version = "0.1.0"
edition = "2021"
publish = false

[dependencies]
hmac = "*"
sha2 = "*"
hex = "*"
rand = "*"
chrono = { version = "*", default-features = false, features = ["clock"] }
clap = { version = "*", features = ["derive"] }
ctrlc = "*"
rdev = "*"
image = { version = "*", default-features = false, features = ["jpeg"] }
active-win-pos-rs = "*"
