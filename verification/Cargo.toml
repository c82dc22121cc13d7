[package]
name = "sigstore"
version = "0.1.0"
edition = "2021"
publish = false

[dependencies]
aws-lc-rs = "1"
base64 = "0.22"
const-oid = { version = "0.9", features = ["db"] }
pem = "3"
pkcs8 = "0.10"
sha2 = "0.10"
x509-cert = "0.2"
zeroize = "1"
