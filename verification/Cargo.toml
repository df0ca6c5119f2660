[package]
name = "ntfs"
version = "0.3.0"
edition = "2021"
publish = false

[dependencies]
arrayvec = "0.7"
chrono = "0.4"
