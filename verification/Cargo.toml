[package]
name = "songcopy"
version = "0.1.0"
edition = "2021"
publish = false

[dependencies]
audiotags = "*"
fs-err = "*"
jwalk = "*"
rayon = "*"

[dev-dependencies]
tempfile = "*"
