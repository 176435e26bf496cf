[package]
name = "groth16"
version = "0.1.0"
edition = "2021"
publish = false

[dependencies]
ark-ec = "*"
ark-ff = "*"
ark-mnt4-298 = { version = "*", features = ["r1cs"] }
ark-r1cs-std = "*"
ark-relations = "*"
ark-std = "*"
