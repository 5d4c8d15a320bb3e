[package]
name = "wasmtime-wasi-usb"
version = "44.0.0"
edition = "2021"
publish = false

[dependencies]
libc = "=0.2.191"
libusb1-sys = "=0.7.0"
log = "=0.4.35"
once_cell = "=1.21.4"
tokio = { version = "=1.54.1", default-features = false, features = ["sync"] }
wasmtime = { version = "=44.0.3", default-features = false, features = ["async", "component-model", "runtime", "std"] }
wasmtime-wasi = { version = "=44.0.3", default-features = false, features = ["p2"] }
