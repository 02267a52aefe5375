[package]
name = "compactor_gui"
version = "0.1.0"
edition = "2021"
publish = false

[dependencies]
crossbeam-channel = "*"
ctrlc = "*"
open = "*"

[dev-dependencies]
serde_json = "*"
