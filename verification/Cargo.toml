[package]
name = "sgx_dcap_quote_verifier"
version = "0.1.0"
edition = "2021"
publish = false

[dependencies]
clap = { version = "*", features = ["derive"] }
intel-tee-quote-verification-rs = "*"
