[package]
name = "llvm_scope"
version = "0.1.0"
edition = "2021"
publish = false

[dependencies]
llvm-sys = { version = "=140.1.3", features = ["prefer-dynamic"] }
