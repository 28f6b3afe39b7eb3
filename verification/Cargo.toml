[package]
name = "audiocap_lib"
version = "0.1.0"
edition = "2021"
publish = false

[dependencies]
anyhow = "1"
chrono = "0.4"
ctrlc = "3"
libc = "0.2"
serde_json = "1"
which = "4"
