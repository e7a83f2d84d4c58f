[package]
name = "rusty_evm"
version = "0.1.0"
edition = "2021"
publish = false

[dependencies]
alloy-primitives = "=1.7.3"
k256 = "=0.13.4"
rand_core = { version = "=0.6.4", features = ["getrandom"] }
clap = { version = "*", features = ["derive"] }
color-eyre = "*"
dotenv = "*"
env_logger = "*"
log = "*"
serde = { version = "*", features = ["derive"] }
thiserror = "*"
toml = "*"
