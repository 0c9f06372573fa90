[package]
name = "labyrinth"
version = "0.1.0"
edition = "2021"
publish = false

[dependencies]
base32 = "0.4"
base64 = "0.13"
bson = "2"
chrono = { version = "0.4", features = ["serde"] }
dotenv = "0.15"
futures = "0.3"
jsonwebtoken = { version = "8", default-features = false }
lazy_static = "1"
lettre = { version = "0.10", default-features = false, features = ["builder", "smtp-transport"] }
log = "0.4"
md5 = "0.7"
mongodb = "2"
mongodb-gridfs = "0.2"
qrcode-generator = "4"
rand = "0.8"
rand_core = { version = "0.6", features = ["getrandom"] }
regex = "1"
rlua = "0.19"
rust-argon2 = "1"
serde = { version = "1", features = ["derive"] }
serde_json = "1"
thiserror = "1"
tokio = { version = "1", features = ["macros", "rt-multi-thread"] }
totp-lite = "2"
url = "2"
url-escape = "0.1"
warp = { version = "0.3", default-features = false }
webauthn-rs = "0.3"
