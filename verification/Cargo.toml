[package]
name = "nexrad"
version = "0.1.0"
edition = "2021"
publish = false

[dependencies]
anyhow = "=1.0.104"
chrono = "=0.4.45"
clap = { version = "=4.6.7", features = ["derive"] }
nexrad-data = { version = "=0.2.0", default-features = false, features = ["aws"] }
nexrad-model = "=0.1.0"
reqwest = { version = "=0.12.28", features = ["json"] }
serde_json = "=1.0.154"
thiserror = "=1.0.69"
tokio = { version = "=1.54.1", features = ["macros", "rt-multi-thread"] }
