[package]
name = "leo_deploy"
version = "0.1.0"
edition = "2021"
publish = false

[dependencies]
rand = "=0.10.3"
snarkvm = "=4.11.0"
aleo-std = "=1.0.4"
