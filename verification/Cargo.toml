[package]
name = "c92_decoder"
version = "0.1.0"
edition = "2021"
publish = false

[dependencies]
cortex-m = "0.7"
cortex-m-rt = "0.7"
defmt = "0.3"
defmt-rtt = "0.4"
panic-probe = "0.3"
stm32g0xx-hal = { version = "0.2", features = ["rt", "stm32g031"] }
lenz-decoder = "*"
mm-decoder = "*"
