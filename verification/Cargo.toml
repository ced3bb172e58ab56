[package]
name = "gba_emu"
version = "0.1.0"
edition = "2021"
publish = false

[dependencies]
simple-bits = "*"
num_enum = "0.7"
egui = "0.31"
eframe = "0.31"
