[package]
name = "emu_ram"
version = "0.1.0"
edition = "2021"
publish = false

[dependencies]
asr = "*"
bytemuck = "*"
spinning_top = "*"
