[package]
name = "video_converter"
version = "0.1.0"
edition = "2021"
publish = false

[dependencies]
ratatui = "0.22"
crossterm = "0.26"
thiserror = "1"
walkdir = "2"
