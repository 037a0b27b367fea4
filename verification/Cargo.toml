[package]
name = "lightningcss_node"
version = "0.1.0"
edition = "2021"
publish = false

[dependencies]
lightningcss = { version = "=1.0.0-alpha.50", default-features = false, features = ["grid", "visitor", "serde"] }
napi = { version = "=2.16.17", features = ["serde-json"] }
serde = { version = "=1.0.197", features = ["derive"] }
serde-detach = "=0.0.1"
smallvec = "=1.16.4"
