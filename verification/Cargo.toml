[package]
name = "nearest_biome"
version = "0.1.0"
edition = "2021"
publish = false

[dependencies]
itertools = "*"
j4rs = "*"
parking_lot = "*"
rayon = "*"
