[package]
name = "lilac"
version = "0.1.0"
edition = "2021"
publish = false

[dependencies]
clap = { version = "4", features = ["derive"] }
claxon = "0.4"
crossterm = "0.28"
glob = "0.3"
hound = "3.5"
id3 = "1"
lewton = "0.10"
miette = "7"
minimp3 = "0.5"
ratatui = "0.29"
rayon = "1"
rodio = { version = "0.20", default-features = false }
serde = { version = "1", features = ["derive"] }
serde_json = "1"
thiserror = "2"
