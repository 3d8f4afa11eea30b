[package]
name = "service_pipeline"
version = "0.1.0"
edition = "2021"
publish = false

[dependencies]
config = { version = "0.15", default-features = false, features = ["toml"] }
dirs = "6"
futures = "0.3"
log = "0.4"
structopt = "0.3"
tari_service_framework = "6.2"
tari_shutdown = "6.2"
tokio = { version = "1", features = ["rt", "rt-multi-thread"] }
tower = { version = "0.5", features = ["util"] }
