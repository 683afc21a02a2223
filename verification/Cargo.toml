[package]
name = "shm_store"
version = "0.1.0"
edition = "2021"
publish = false

[dependencies]
shared_memory = "*"
raw_sync = "*"
env_logger = "*"
