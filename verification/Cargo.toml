[package]
name = "cert_get"
version = "0.1.0"
edition = "2021"
publish = false

[dependencies]
clap = "2.33"
dialoguer = "0.6"
indicatif = "0.15"
log = "0.4"
openssl = "0.10"
openssl-probe = "0.1"
pretty_env_logger = "0.4"
