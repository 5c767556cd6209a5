[package]
name = "otp"
version = "0.1.0"
edition = "2021"
publish = false

[dependencies]
byteorder = "1"
data-encoding = "2"
hmac = "0.12"
rand = "0.8"
sha1 = "0.10"

[dev-dependencies]
chrono = { version = "0.4", default-features = false, features = ["std"] }
regex = "1"
