[package]
name = "lldb"
version = "0.1.0"
edition = "2021"
publish = false

[dependencies]
lldb-sys = "*"
libc = "*"
juniper = "*"
