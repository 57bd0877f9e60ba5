[package]
name = "presence_log"
version = "0.1.0"
edition = "2021"
publish = false

[dependencies]
chrono = "*"
dotenv = "*"
libsql = "*"
log = "*"
poise = "*"
rand = "*"
rouille = "*"
serenity = "*"
tokio = { version = "*", features = ["macros", "rt-multi-thread", "sync"] }
