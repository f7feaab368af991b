[package]
name = "ckb_vm_debugger"
version = "0.2.0"
edition = "2021"
publish = false

[dependencies]
bytes = "=1.12.1"
ckb-vm = "=0.20.1"
clap = "=2.34.0"
