[package]
name = "pools"
version = "0.1.0"
edition = "2021"
publish = false

[dependencies]
anchor-lang = "=0.24.2"
anchor-spl = "=0.24.2"
gauge = { version = "=0.4.1", features = ["cpi"] }
quarry-mine = { version = "=5.2.0", features = ["cpi"] }
quarry-operator = { version = "=5.2.0", features = ["cpi"] }
stable-swap-anchor = "=1.8.1"
stable-swap-client = "=1.8.1"
vipers = "=2.0.6"
