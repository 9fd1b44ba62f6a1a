[package]
name = "pmlab"
version = "0.1.0"
edition = "2021"
publish = false

[dependencies]
defmt = "*"
defmt-rtt = "*"
embassy-executor = "*"
embassy-futures = "*"
embassy-rp = "*"
embassy-sync = "*"
embassy-time = "*"
embedded-hal = "1"
embedded-hal-async = "1"
fixed = "1"
panic-probe = "*"
