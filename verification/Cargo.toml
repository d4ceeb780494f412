[package]
name = "pczt"
version = "0.1.0"
edition = "2021"
publish = false

[dependencies]
sapling-crypto = "=0.7.0"
orchard = "=0.15.5"
jubjub = "=0.10.0"
pasta_curves = "=0.5.2"
ff = "=0.13.1"
group = "=0.13.0"
bls12_381 = "=0.8.0"
redjubjub = "=0.8.0"
rand_core = { version = "=0.6.4", features = ["getrandom"] }
zcash_primitives = "=0.29.0"
zcash_protocol = "*"
zcash_note_encryption = "=0.4.2"
zcash_transparent = "=0.9.0"
nonempty = "=0.11.0"
