[package]
name = "tinymist"
version = "0.1.0"
edition = "2021"
publish = false

[dependencies]
crossbeam-channel = "0.5"
log = "0.4"
once_cell = "1"
parking_lot = "0.12"
tokio = { version = "1", features = ["macros", "rt", "rt-multi-thread", "sync"] }
typst = "0.11"
