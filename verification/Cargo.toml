[package]
name = "blaze_ftc"
version = "0.1.0"
edition = "2021"
publish = false

[dependencies]
crossbeam-channel = "*"
jni = "*"
log = "*"
android_logger = "*"
serial2 = "*"
termios = "*"
core_affinity = "*"
thread-priority = "*"
spin_sleep = "*"
pid = "*"
byteorder = "*"
bytemuck = { version = "*", features = ["derive"] }
num-traits = "*"
num_enum = "*"
