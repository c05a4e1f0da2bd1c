[package]
name = "nouveau-workaround"
version = "0.1.0"
edition = "2021"
publish = false

[dependencies]
futures-lite = "2"
tokio = { version = "1", features = ["macros", "rt-multi-thread", "time"] }
zbus = { version = "5", default-features = false, features = ["tokio"] }
