[package]
name = "wreckers_radio"
version = "0.1.0"
edition = "2021"
publish = false

[dependencies]
iced = { version = "=0.14.0", default-features = false, features = ["image-without-codecs", "tiny-skia", "tokio", "wayland", "x11"] }
# No code names this crate. iced decodes the artwork through it, and with
# `image-without-codecs` the decoders are those that are switched on here.
image = { version = "=0.25.10", default-features = false, features = ["gif", "jpeg", "png", "webp"] }
open = "=5.4.5"
reqwest = { version = "=0.12.28", default-features = false, features = ["json", "rustls-tls"] }
rfd = { version = "=0.17.2", default-features = false, features = ["xdg-portal"] }
serde = { version = "=1.0.229", features = ["derive"] }
