[package]
name = "factotum_server"
version = "0.1.0"
edition = "2021"
publish = false

[dependencies]
base64 = "0.22"
chrono = "0.4"
regex = "1"
log = "0.4"
log4rs = "1"
iron = "0.6"
router = "0.6"
bodyparser = "0.8"
persistent = "0.4"
logger = "0.4"
url = "*"
threadpool = "1"
consul = "*"
docopt = "1"
serde = { version = "1", features = ["derive"] }
serde_json = "1"
