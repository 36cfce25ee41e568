[package]
name = "cryo_quest"
version = "0.1.0"
edition = "2021"
publish = false

[dependencies]
itertools = "0.8"
num = "0.2"
rand = "0.6"
rodio = "0.8"
termion = "1.5"
tui = "0.4"
unicode-width = "0.1"
