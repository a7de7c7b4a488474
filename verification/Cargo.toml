[package]
name = "family_api"
version = "0.1.0"
edition = "2021"
publish = false

[dependencies]
actix-cors = "*"
actix-files = "*"
actix-multipart = "*"
actix-web = "*"
bcrypt = "=0.19.3"
chrono = { version = "=0.4.45", features = ["serde"] }
config = "*"
deadpool-postgres = { version = "*", features = ["serde"] }
dotenv = "*"
env_logger = "*"
futures = "*"
futures-util = "*"
jsonwebtoken = { version = "=11.1.0", features = ["rust_crypto"] }
log = "*"
reqwest = { version = "*", default-features = false, features = ["json", "stream"] }
sanitize-filename = "*"
serde = { version = "*", features = ["derive"] }
serde-querystring-actix = "*"
tokio-pg-mapper = "*"
tokio-pg-mapper-derive = "*"
tokio-postgres = { version = "=0.7.18", features = ["with-chrono-0_4"] }
