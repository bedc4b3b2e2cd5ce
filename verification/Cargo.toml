[package]
name = "kitties"
version = "0.1.0"
edition = "2021"
publish = false

[dependencies]
frame-support = "38.0.0"
frame-system = "38.0.0"
ink_allocator = "=3.0.0-rc8"
ink_engine = "=3.0.0-rc8"
ink_env = "=3.0.0-rc8"
ink_metadata = "=3.0.0-rc8"
ink_prelude = "=3.0.0-rc8"
ink_primitives = "=3.0.0-rc8"
ink_storage = "=3.0.0-rc8"
ink_storage_derive = "=3.0.0-rc8"
parity-scale-codec = "3.6.12"
sp-io = "38.0.0"
