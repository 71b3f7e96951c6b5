[package]
name = "i2c"
version = "0.1.0"
edition = "2021"

[dependencies]
i2cdev = "*"
