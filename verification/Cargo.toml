[package]
name = "miniclient"
version = "0.1.0"
edition = "2021"
publish = false

[dependencies]
crazyflie-lib = "*"
crazyflie-link = "*"
gilrs = "*"
tokio = { version = "1", features = ["rt-multi-thread", "time", "macros"] }
tokio-util = "*"
