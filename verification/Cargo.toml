[package]
name = "tool_orchestrator"
version = "0.1.0"
edition = "2021"
publish = false

[dependencies]
serde_json = "=1.0.151"
chrono = "=0.4.45"
async-openai = { version = "=0.42.1", features = ["chat-completion"] }
tokio = { version = "=1.53.2", features = ["macros", "rt-multi-thread"] }
http_req = "=0.14.6"
dotenv = "=0.15.0"
