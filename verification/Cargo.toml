[package]
name = "llama_chat"
version = "0.1.0"
edition = "2021"
publish = false

[dependencies]
llama-cpp-sys-2 = "*"
libc = "*"
