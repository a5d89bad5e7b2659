[package]
name = "custody"
version = "0.1.0"
edition = "2021"
publish = false

[dependencies]
aes-gcm = "0.10"
base64 = "0.21"
hmac = "0.12"
sha2 = "0.10"
rand = "0.8"
rsa = { version = "0.9", features = ["sha2"] }
secrecy = { version = "0.10", features = ["serde"] }
uuid = { version = "1", features = ["v4", "v5", "serde"] }
zeroize = { version = "1", features = ["derive"] }
serde = { version = "1", features = ["derive"] }
actix-web = { version = "4", default-features = false, features = ["macros"] }
actix-http = { version = "3", default-features = false }
anyhow = "1"
futures-util = "0.3"
http = "1"
sqlx = { version = "0.8", default-features = false, features = ["postgres", "runtime-tokio", "uuid", "derive"] }
thiserror = "1"
tracing = "0.1"
tracing-actix-web = "0.7"
tracing-subscriber = "0.3"
config = { version = "0.14", default-features = false }
