[package]
name = "lc3_tm4c"
version = "0.1.0"
edition = "2021"
publish = false

[dependencies]
lc3-isa = "=0.1.0-alpha0"
embedded-hal = "=0.2.7"
tm4c123x = "=0.9.2"
tm4c123x-hal = "=0.10.3"
cortex-m = "=0.7.10"
