[package]
name = "cratuity"
version = "0.1.0"
edition = "2021"
publish = false

[dependencies]
chrono = { version = "0.4", features = ["serde"] }
clipboard = "0.5"
comfy-table = "4"
crossterm = "0.25"
open = "3"
reqwest = { version = "0.11", default-features = false, features = ["blocking", "json"] }
serde = { version = "1", features = ["derive"] }
structopt = "0.3"
tui = "0.19"
