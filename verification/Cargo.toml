[package]
name = "cvdoc"
version = "0.1.0"
edition = "2021"
publish = false

[dependencies]
image = "*"
base64 = "*"
kamadak-exif = "*"
pdf-extract = "*"
tempfile = "*"
