[package]
name = "final_exp_stark"
version = "0.1.0"
edition = "2021"
publish = false

[dependencies]
num-bigint = "*"
plonky2 = "*"
starky = "*"
