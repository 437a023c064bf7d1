[package]
name = "p3-recursion-tables"
version = "0.1.0"
edition = "2021"
publish = false

[dependencies]
hashbrown = "*"
p3-commit = "*"
p3-field = "*"
p3-lookup = "*"
p3-uni-stark = "*"
p3-util = "*"
tracing = "*"
