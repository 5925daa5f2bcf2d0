[package]
name = "kryptering"
version = "0.1.0"
edition = "2021"
publish = false

[dependencies]
cryptoki = "=0.12.1"
digest = "=0.10.7"
dsa = "=0.6.3"
ed25519-dalek = { version = "=2.2.0", features = ["rand_core"] }
getrandom = { version = "=0.4.3", features = ["sys_rng"] }
md-5 = { version = "=0.10.6", features = ["oid"] }
ml-dsa = "=0.1.2"
p256 = { version = "=0.13.2", features = ["ecdsa"] }
p384 = { version = "=0.13.1", features = ["ecdsa"] }
p521 = { version = "=0.13.3", features = ["ecdsa"] }
pkcs8 = "=0.11.0"
rand = "=0.8.8"
ripemd = { version = "=0.1.3", features = ["oid"] }
rsa = "=0.9.10"
sha1 = { version = "=0.10.7", features = ["oid"] }
sha2 = { version = "=0.10.9", features = ["oid"] }
sha3 = { version = "=0.10.9", features = ["oid"] }
signature = "=2.2.0"
slh-dsa = "=0.2.0-rc.5"
zeroize = "=1.9.1"
