[package]
name = "rwx_im"
version = "0.1.0"
edition = "2021"
publish = false

[dependencies]
rdedup-lib = "=3.2.0"
url = "=1.7.2"
actix-web = "=3.3.3"
anyhow = "=1.0.104"
env_logger = "=0.11.11"
log = "=0.4.34"
thiserror = "=1.0.69"

[dev-dependencies]
tempfile = "=3.27.0"
