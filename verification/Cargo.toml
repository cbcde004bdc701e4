[package]
name = "recovery_upgrade"
version = "0.1.0"
edition = "2021"
publish = false

[dependencies]
anyhow = "1"
clap = "2"
disk-types = "0.1.5"
distinst = "0.3.2"
err-derive = "0.3.1"
isahc = { version = "1", default-features = false }
os-release = "0.1.0"
sha2 = "0.10"
sys-mount = "1"
tempfile = "3"
ubuntu-version = "0.2.5"
