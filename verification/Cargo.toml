[package]
name = "mesh_core"
version = "0.1.0"
edition = "2021"
publish = false

[dependencies]
uuid = { version = "=1.27.0", features = ["v4"] }
rcgen = "=0.11.3"
serde = { version = "=1.0.229", features = ["derive"] }
chrono = "=0.4.45"
dotenv = "=0.15.0"
futures-timer = "=3.0.4"
tokio = { version = "=1.53.2", features = ["full"] }
warp = { version = "=0.3.7", features = ["tls"] }
reqwest = { version = "=0.11.27", default-features = false, features = ["json", "rustls-tls"] }
sqlx = { version = "=0.7.4", default-features = false, features = ["runtime-tokio-rustls", "mysql"] }
