[package]
name = "local_cluster"
version = "0.1.0"
edition = "2021"
publish = false

[dependencies]
crossbeam-channel = "=0.5.17"
directories = "=3.0.2"
log = "=0.4.34"
sn_launch_tool = "=0.0.20"
tokio = { version = "=0.2.25", features = ["macros", "rt-threaded", "time"] }
