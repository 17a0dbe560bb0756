[package]
name = "wiborade"
version = "0.1.4"
edition = "2021"
publish = false

[dependencies]
umya-spreadsheet = "=3.1.1"
kamadak-exif = "=0.6.1"
image = { version = "=0.25.10", default-features = false, features = ["jpeg", "png", "bmp", "gif", "webp", "tiff"] }
calamine = { version = "=0.38.0", features = ["dates"] }
chrono = { version = "=0.4.45", default-features = false, features = ["std"] }
iced = { version = "=0.14.0", default-features = false, features = ["tiny-skia", "image-without-codecs", "x11", "thread-pool"] }
