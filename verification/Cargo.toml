[package]
name = "test_generator"
version = "0.1.0"
edition = "2021"
publish = false

[dependencies]
anyhow = "=1.0.104"
clap = { version = "=4.6.7", features = ["derive"] }
env_logger = "=0.11.11"
iced-x86 = "=1.22.0"
indexmap = "=2.14.2"
log = "=0.4.35"
rand = "=0.9.5"
rand_distr = "=0.5.1"
serde = { version = "=1.0.229", features = ["derive"] }
time = { version = "=0.3.55", features = ["formatting", "macros", "local-offset"] }
toml = "=0.9.12"
