[package]
name = "wordle_cli"
version = "0.1.0"
edition = "2021"
publish = false

[dependencies]
arboard = "3"
crossterm = "0.25"
dirs-next = "2"
serde = { version = "1", features = ["derive"] }
serde_json = "1"
termcolor = "1"
tui = "0.19"
