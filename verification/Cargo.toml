[package]
name = "wallet_keypair"
version = "0.1.0"
edition = "2021"
publish = false

[dependencies]
helium-crypto = "=0.11.0"
sodiumoxide = "=0.2.7"
rand = "=0.8.8"
byteorder = "=1.5.0"
bip39 = "=3.0.0"
bs58 = "=0.5.1"
p256 = "=0.13.2"
k256 = "=0.13.4"
