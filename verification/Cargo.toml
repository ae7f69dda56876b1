[package]
name = "reql"
version = "0.1.0"
edition = "2021"
publish = false

[dependencies]
async-net = "*"
async-stream = "0.3"
base64 = "0.22"
dashmap = "*"
futures = "0.3"
hmac = "0.12"
log = "0.4"
pbkdf2 = "0.12"
ql2 = "*"
rand = "0.8"
reql-types = "*"
serde_json = "1"
sha2 = "0.10"
