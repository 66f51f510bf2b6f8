[package]
name = "nano_sync"
version = "0.1.0"
edition = "2021"
publish = false

[dependencies]
ark-ff = "*"
ark-ec = "*"
ark-serialize = "*"
ark-std = "*"
ark-mnt6-753 = "*"
blake2 = "*"
hex = "*"
