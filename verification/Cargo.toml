[package]
name = "bevy_atmosphere"
version = "0.1.0"
edition = "2021"
publish = false

[dependencies]
bevy = { version = "=0.7.0", default-features = false, features = ["render"] }
# bevy's derive crates use syn's "full" items without asking for them; darling does ask
darling = "=0.13.4"
