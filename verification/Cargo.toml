[package]
name = "evtclib"
version = "0.7.3"
edition = "2021"
publish = false

[dependencies]
byteorder = "=1.5.0"
zip = { version = "=0.6.6", default-features = false, features = ["deflate"] }
thiserror = "=1.0.69"
fnv = "=1.0.7"
