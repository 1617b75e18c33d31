[package]
name = "search_and_destroy_chess_2"
version = "0.1.0"
edition = "2021"
publish = false

[dependencies]
rand = "=0.8.8"
regex = "=1.13.1"
sfml = "=0.16.0"
