[package]
name = "libpulse_futures"
version = "0.1.0"
edition = "2021"
publish = false

[dependencies]
futures = "*"
futures-util = "*"
glib = "*"
libpulse-binding = "*"
libpulse-glib-binding = "*"
