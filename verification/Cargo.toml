[package]
name = "rsvim_fs"
version = "0.1.0"
edition = "2021"
publish = false

[dependencies]
postcard = { version = "1", features = ["alloc"] }
serde = { version = "1", features = ["derive"] }
tokio = { version = "1", features = ["fs"] }
junction = "1"
