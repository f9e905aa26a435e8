[package]
name = "trello_tui"
version = "0.1.0"
edition = "2021"
publish = false

[dependencies]
json = "0.12"
reqwest = { version = "0.11", features = ["blocking"] }
termion = "1.5"
tui = "0.16"
fern = "0.6"
log = "0.4"
chrono = "0.4"
