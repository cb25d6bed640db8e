[package]
name = "quantum_server"
version = "0.1.0"
edition = "2021"
publish = false

[dependencies]
bcrypt = "=0.19.3"
chrono = { version = "=0.4.45", default-features = false, features = ["clock", "std"] }
dotenvy = "=0.15.7"
env_logger = "=0.11.11"
futures-util = "=0.3.34"
jsonwebtoken = { version = "=11.1.0", default-features = false, features = ["rust_crypto"] }
serde = { version = "=1.0.229", features = ["derive"] }
serde_json = "=1.0.151"
sqlx = { version = "=0.9.0", default-features = false, features = ["runtime-tokio", "postgres", "uuid", "chrono"] }
tokio = { version = "=1.53.2", features = ["rt-multi-thread", "macros", "net", "sync"] }
tokio-tungstenite = "=0.30.0"
tungstenite = "=0.30.0"
uuid = "=1.27.0"
