[package]
name = "mcp3424"
version = "0.1.0"
edition = "2021"
publish = false

[dependencies]
defmt = "*"
embedded-hal-async = "1"
futures = { version = "0.3", default-features = false }
