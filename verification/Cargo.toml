[package]
name = "backend_server"
version = "0.1.0"
edition = "2021"
publish = false

[dependencies]
axum = "=0.7.9"
tokio = { version = "=1.54.1", features = ["macros", "rt-multi-thread", "net", "io-util"] }

[dev-dependencies]
tower = { version = "=0.5.3", features = ["util"] }
