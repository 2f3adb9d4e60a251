[package]
name = "forkwait"
version = "0.1.0"
edition = "2021"
publish = false

[dependencies]
fork = "=0.10.0"
tokio = { version = "=1.53.2", features = ["signal", "rt"] }

[dev-dependencies]
rustix = { version = "=1.0.8", features = ["thread", "runtime"] }
