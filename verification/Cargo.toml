[package]
name = "producthunt"
version = "0.1.0"
edition = "2021"
publish = false

[dependencies]
clap = "4"
serde_json = "1"
ureq = "3"
