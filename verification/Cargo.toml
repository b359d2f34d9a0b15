[package]
name = "firmware"
version = "0.1.0"
edition = "2021"
publish = false

[dependencies]
softfp = "=0.1.0"
miniz_oxide = "=0.9.1"
crc32fast = "=1.5.3"
byteorder = "=1.5.0"
spin = "=0.12.3"
log = "=0.4.34"
