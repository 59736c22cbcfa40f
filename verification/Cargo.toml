[package]
name = "banana"
version = "0.1.0"
edition = "2021"
publish = false

[dependencies]
ropey = { version = "1", default-features = false }
crossterm = "0.25"
tui = "0.19"
smallvec = "1"
