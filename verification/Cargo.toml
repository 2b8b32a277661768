[package]
name = "oauth2_eveonline"
version = "0.1.0"
edition = "2021"
publish = false

[dependencies]
oauth2 = "2.0"
url = "1"
failure = "0.1"
glib = "*"
gtk = "*"
webkit2gtk = "*"
