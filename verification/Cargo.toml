[package]
name = "lawfirm_agents"
version = "0.1.0"
edition = "2021"
publish = false

[dependencies]
serde = { version = "1", features = ["derive"] }
serde_json = "1"
reqwest = { version = "0.12", default-features = false, features = ["json", "stream"] }
opensearch = { version = "2", default-features = false }
tokio = { version = "1", features = ["macros", "rt-multi-thread"] }
futures = "0.3"
futures-util = "0.3"
futures-core = "0.3"
async-stream = "0.3"
tokio-stream = "0.1"
clap = { version = "4", features = ["derive"] }
env_logger = "0.11"
log = "0.4"
