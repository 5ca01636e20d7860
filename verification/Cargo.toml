[package]
name = "qrcoderust"
version = "0.1.0"
edition = "2021"
publish = false

[dependencies]
qrcode = { version = "=0.14.1", default-features = false }
rustler = "=0.29.1"

[dev-dependencies]
image = { version = "=0.25.10", default-features = false, features = ["png"] }
quircs = "=0.10.3"
resvg = { version = "=0.48.1", default-features = false }
tiny-skia = "=0.12.0"
usvg = { version = "=0.48.1", default-features = false }
