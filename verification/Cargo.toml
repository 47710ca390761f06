[package]
name = "seqbench"
version = "0.1.0"
edition = "2021"
publish = false

[dependencies]
extarray = "*"
optarray = "*"
segment-array = "*"
tzarrays = "*"
