[package]
name = "termcore"
version = "0.1.0"
edition = "2021"
publish = false

[dependencies]
crossterm_winapi = "=0.9.1"
winapi = { version = "=0.3.9", features = ["wincon"] }
