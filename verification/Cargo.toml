[package]
name = "wordfreq"
version = "0.1.0"
edition = "2021"
publish = false

[dependencies]
anyhow = "*"
caseless = "*"
hashbrown = "*"
language-tags = "*"
regex = "*"
unicode-normalization = "*"
