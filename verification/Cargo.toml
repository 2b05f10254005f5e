[package]
name = "oxide"
version = "0.1.0"
edition = "2021"
publish = false

[dependencies]
chrono = "0.4"
dirs = "5"
rustyline = "8"
walkdir = "2"
