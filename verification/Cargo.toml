[package]
name = "kernel_bringup"
version = "0.1.0"
edition = "2021"
publish = false

[dependencies]
arraydeque = "=0.5.1"
arrayvec = "=0.7.8"
bitflags = "=1.3.2"
multiboot2 = "=0.28.0"
pc-keyboard = "*"
seq-macro = "=0.3.6"
vga = "=0.1.2"
x86 = "=0.52.0"
