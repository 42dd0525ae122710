[package]
name = "mapgate"
version = "0.1.0"
edition = "2021"
publish = false

[dependencies]
actix-web = { version = "4", default-features = false }
bitvec = "1"
constant_time_eq = "0.2"
futures-util = "0.3"
memmap2 = "0.5"
parking_lot = "0.12"
reqwest = { version = "0.11", default-features = false }
serde = { version = "1", features = ["derive"] }
tonic = { version = "0.9", default-features = false, features = ["transport", "codegen"] }
tower = "0.4"
tower-layer = "0.3"

[dev-dependencies]
rand = "0.8"
tempfile = "3"
