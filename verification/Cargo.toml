[package]
name = "vst3"
version = "0.1.0"
edition = "2021"
publish = false

[dependencies]
widestring = "=1.2.1"
log = "=0.4.34"
flexi_logger = "=0.31.10"
num-traits = "=0.2.19"
