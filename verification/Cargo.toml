[package]
name = "eggmath"
version = "0.1.0"
edition = "2021"
publish = false

[dependencies]
num-rational = "=0.4.2"
num-bigint = "=0.4.8"
num-traits = "=0.2.19"
indexmap = "=2.14.2"
egg = "=0.11.0"
