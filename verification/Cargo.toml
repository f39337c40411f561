[package]
name = "line_follower"
version = "0.1.0"
edition = "2021"
publish = false

[dependencies]
defmt = "0.3"
defmt-rtt = "0.4"
embassy-executor = { version = "0.5", features = ["arch-std", "executor-thread", "defmt"] }
embassy-stm32 = { version = "0.1", features = ["stm32l476vg", "defmt", "exti", "time-driver-any", "memory-x"] }
embassy-time = { version = "0.3", features = ["defmt"] }
panic-probe = { version = "0.3", features = ["print-defmt"] }
