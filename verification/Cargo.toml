[package]
name = "dropspace_sale"
version = "0.1.0"
edition = "2021"
publish = false

[dependencies]
ink = "=4.3.0"
ink_prelude = "=4.3.0"
openbrush = { version = "=3.2.0", features = ["ownable", "psp37"] }
