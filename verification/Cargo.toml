[package]
name = "bench_ingest"
version = "0.1.0"
edition = "2021"
publish = false

[dependencies]
git2 = "=0.21.0"
rayon = "=1.12.0"
serde_json = "=1.0.151"
ureq = "=2.12.1"
