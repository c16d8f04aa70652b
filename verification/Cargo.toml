[package]
name = "flowstt"
version = "0.1.0"
edition = "2021"
publish = false

[dependencies]
aec3 = "=0.4.0"
hound = "=3.5.1"
chrono = "=0.4.45"
directories = "=6.0.0"
rustfft = "=6.4.1"
