[package]
name = "win_etw"
version = "0.1.0"
edition = "2021"
publish = false

[dependencies]
uuid = "=1.29.0"
sha1_smol = "=1.0.1"
bytes = "=1.12.1"
log = "=0.4.34"
widestring = "=1.2.1"
tracing = "=0.1.44"
tracing-subscriber = "=0.3.23"
tracing-log = "=0.2.0"
syn = { version = "=2.0.119", features = ["full", "extra-traits"] }
quote = "=1.0.47"
proc-macro2 = "=1.0.107"
