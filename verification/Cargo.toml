[package]
name = "geiger_core"
version = "0.1.0"
edition = "2021"
publish = false

[dependencies]
ringbuffer = "=0.16.0"
pid = "=4.0.0"
embassy-sync = "=0.8.0"
embassy-time = "=0.5.1"
embassy-futures = "=0.1.2"
embassy-executor = { version = "=0.9.1", features = ["arch-std", "executor-thread"] }
embassy-stm32 = { version = "=0.6.0", features = ["stm32f103c8", "exti", "time-driver-tim2"] }
embassy-usb = "=0.6.0"
embedded-hal-bus = { version = "=0.3.0", features = ["async"] }
embedded-storage-async = "=0.4.2"
sequential-storage = "=6.0.1"
display-interface = "=0.5.0"
ssd1306 = { version = "=0.10.0", features = ["async"] }
heapless = "=0.9.3"
static_cell = "=2.1.1"
defmt = "=1.2.0"
defmt-rtt = "=1.3.1"
panic-probe = "=1.0.0"
