[package]
name = "rsdb"
version = "0.1.0"
edition = "2021"
publish = false

[dependencies]
clap = "2"
colored = "2"
elf = "*"
libc = "0.2"
linux-personality = "*"
nix = { version = "*", features = ["ptrace", "process", "signal", "personality"] }
regex = "1"
rustyline = "9"
