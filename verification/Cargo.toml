[package]
name = "quick"
version = "0.1.0"
edition = "2021"
publish = false

[dependencies]
anyhow = "*"
humansize = "*"
humantime = "*"
lipsum = "*"
mimalloc = "*"
shmem-ipc = "*"
tokio = { version = "*", features = ["full"] }
tokio-compat-02 = "*"
uds = "*"
