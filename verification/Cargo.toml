[package]
name = "kimojio"
version = "0.1.0"
edition = "2021"
publish = false

[dependencies]
clap = { version = "4", features = ["derive"] }
futures = "0.3"
intrusive-collections = "*"
libc = "0.2"
openssl = "0.10"
pin-project-lite = "0.2"
rustix = { version = "1", features = ["event", "fs", "io_uring", "mm", "net", "pipe", "process", "system", "thread", "time"] }
rustix-uring = "*"
scopeguard = "1"
uuid = { version = "1", features = ["v4"] }
