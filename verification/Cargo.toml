[package]
name = "blank_fields"
version = "0.1.0"
edition = "2021"
publish = false

[dependencies]
ratatui = { version = "=0.30.2", default-features = false, features = ["crossterm"] }
s_text_input_f = "=0.3.4"
