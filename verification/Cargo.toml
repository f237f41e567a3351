[package]
name = "ttyplay"
version = "0.1.0"
edition = "2021"
publish = false

[dependencies]
anyhow = "=1.0.104"
bytes = "=1.12.1"
clap = { version = "=4.6.7", features = ["derive"] }
futures-util = "=0.3.34"
pty-process = { version = "=0.5.3", features = ["async"] }
terminal_size = "=0.4.4"
textmode = { version = "=0.4.1", features = ["async"] }
tokio = { version = "=1.53.2", features = ["full"] }
tokio-stream = "=0.1.19"
tokio-util = { version = "=0.7.19", features = ["io"] }
ttyrec = { version = "=0.4.0", features = ["async"] }
vt100 = "=0.15.2"
