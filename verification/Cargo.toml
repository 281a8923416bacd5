[package]
name = "emotion_player"
version = "0.1.0"
edition = "2021"
publish = false

[dependencies]
rspotify = { version = "*", default-features = false, features = ["client-reqwest", "reqwest-rustls-tls"] }
actix-web = "*"
dotenv = "*"
env_logger = "*"
open = "*"
