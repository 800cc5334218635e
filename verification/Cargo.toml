[package]
name = "libvirt-remote"
version = "0.2.0"
edition = "2021"
publish = false

[dependencies]
unicode-width = "*"
serde = { version = "1", features = ["derive"] }
serde-xdr = "*"
log = "0.4"
env_logger = "*"
url = "2"
clap = "4"
chrono = "*"
fluent = "*"
unic-langid = { version = "*", features = ["macros"] }
libc = "*"
syn = { version = "2", features = ["full"] }
quote = "1"
proc-macro2 = "1"
