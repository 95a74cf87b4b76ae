[package]
name = "judge_core"
version = "0.1.0"
edition = "2021"

[dependencies]
nix = "0.26"
