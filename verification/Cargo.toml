[package]
name = "allocandrescu"
version = "0.1.0"
edition = "2021"
publish = false

[dependencies]
allocator-api2 = "*"
bumpalo = "*"
