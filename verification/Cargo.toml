[package]
name = "midi_mapping_manager"
version = "0.1.0"
edition = "2021"
publish = false

[dependencies]
midir = "*"
rustyline = "10"
shell-words = "1"
thiserror = "1"
