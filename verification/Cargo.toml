[package]
name = "gba"
version = "0.1.0"
edition = "2021"
publish = false

[dependencies]
bitfrob = "=1.3.2"
voladdress = "=1.4.0"
bytemuck = "=1.25.2"
embedded-hal = "=0.2.7"
nb = "=1.1.0"
gba-proc-macro = "=0.5.0"
