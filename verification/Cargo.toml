[package]
name = "minircore"
version = "0.1.0"
edition = "2021"
publish = false

[dependencies]
x86_64 = { version = "=0.14.13", default-features = false, features = ["instructions"] }
pc-keyboard = "=0.5.1"
pic8259 = "=0.10.4"
bootloader = { version = "=0.9.35", features = ["map_physical_memory"] }
spin = "=0.5.2"
volatile = "=0.2.7"
lazy_static = { version = "=1.5.1", features = ["spin_no_std"] }
