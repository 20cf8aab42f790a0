[package]
name = "backend"
version = "0.1.0"
edition = "2021"
publish = false

[dependencies]
bcrypt = "0.15"
chrono = "0.4"
uuid = { version = "1", features = ["v4"] }
rand = "0.8"
jsonwebtoken = "9"
serde_json = { version = "1", features = ["preserve_order"] }
url = "2"
hmac = "0.12"
sha2 = "0.10"
serde = { version = "1", features = ["derive"] }
rocket = { version = "0.5", features = ["json"] }
rocket_cors = "0.6"
couch_rs = "*"
reqwest = "0.12"
tokio = { version = "1", features = ["sync"] }
async-trait = "0.1"
dotenv = "0.15"
rusoto_core = "0.48"
rusoto_credential = "0.48"
rusoto_s3 = "0.48"
image = { version = "0.25", default-features = false, features = ["jpeg"] }
rqrr = { version = "0.11", default-features = false }
