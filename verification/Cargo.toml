[package]
name = "bare_metal_swim"
version = "0.1.0"
edition = "2021"
publish = false

[dependencies]
num = "=0.4.3"
pc-keyboard = "=0.8.0"
pluggable_interrupt_os = "=0.5.3"
