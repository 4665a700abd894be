[package]
name = "fednote"
version = "0.1.0"
edition = "2021"
publish = false

[dependencies]
activitystreams = "*"
chrono = "0.4"
html2md = "*"
url = "2"
