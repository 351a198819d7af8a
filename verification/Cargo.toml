[package]
name = "confidential_battleship_game"
version = "0.1.0"
edition = "2021"
publish = false

[dependencies]
anchor-lang = "0.31"
arcium-anchor = "0.1"
arcium-client = { version = "0.1", default-features = false }
arcium-macros = "0.1"
arcis-imports = "0.1"
