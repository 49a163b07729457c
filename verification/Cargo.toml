[package]
name = "stepper_motion"
version = "0.1.0"
edition = "2021"
publish = false

[dependencies]
arrayvec = "0.7"
array-init = "2"
safe-regex = "*"
