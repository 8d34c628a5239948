[package]
name = "ssh_runtime"
version = "0.1.0"
edition = "2021"
publish = false

[dependencies]
anyhow = "=1.0.104"
async-trait = "=0.1.92"
clap = { version = "=4.6.7", features = ["derive"] }
env_logger = "=0.11.11"
log = "=0.4.34"
russh = "=0.46.0"
russh-keys = "=0.46.0"
tokio = { version = "=1.53.2", features = ["macros", "rt-multi-thread", "io-std", "io-util", "time"] }

[dev-dependencies]
regex = "=1.13.1"
