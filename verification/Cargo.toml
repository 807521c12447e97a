[package]
name = "ieee80211"
version = "0.1.0"
edition = "2021"
publish = false

[dependencies]
byteorder = "1"
eui48 = "1"
