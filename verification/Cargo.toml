[package]
name = "secure_photo_hub"
version = "0.1.0"
edition = "2021"
publish = false

[dependencies]
anyhow = "*"
actix-session = { version = "*", features = ["cookie-session"] }
actix-web = { version = "*", default-features = false, features = ["macros", "cookies"] }
base64 = "=0.23.1"
futures-util = "*"
jsonwebtoken = { version = "=11.1.0", features = ["rust_crypto"] }
reqwest = { version = "*", default-features = false, features = ["form", "json", "query"] }
ring = "=0.17.14"
serde = { version = "=1.0.229", features = ["derive"] }
serde_json = "=1.0.151"
url = "*"
uuid = { version = "*", features = ["v4", "serde"] }
