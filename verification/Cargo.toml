[package]
name = "easy_http_request"
version = "0.1.0"
edition = "2021"
publish = false

[dependencies]
url = "2"
hyper = "0.10"
hyper-native-tls = "0.3"
