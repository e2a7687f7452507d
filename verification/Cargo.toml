[package]
name = "uloc"
version = "0.1.0"
edition = "2021"
publish = false

[dependencies]
rust_icu_common = "*"
rust_icu_sys = "*"
rust_icu_uenum = "*"
