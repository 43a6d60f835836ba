[package]
name = "mcp2515"
version = "0.1.0"
edition = "2021"
publish = false

[dependencies]
embedded-can = "*"
embedded-hal = "*"
defmt = "*"
ufmt = "*"
