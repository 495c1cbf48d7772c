[package]
name = "zk_battleship"
version = "0.1.0"
edition = "2021"
publish = false

[dependencies]
bulletproofs = "=5.0.0"
curve25519-dalek = { version = "=4.1.3", features = ["rand_core"] }
merlin = "=3.0.0"
rand = "0.8"
halo2_proofs = "=0.4.0"
halo2_gadgets = "=0.6.0"
rand_core = "0.10"
getrandom = "0.4"
