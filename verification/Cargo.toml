[package]
name = "einkvnc"
version = "0.1.0"
edition = "2021"
publish = false

[dependencies]
anyhow = "=1.0.104"
chrono = "=0.4.45"
clap = "=2.34.0"
ctrlc = "=3.5.2"
env_logger = "=0.11.11"
evdev-rs = "=0.6.3"
log = "=0.4.34"
sdl2 = "*"
vnc = "=0.4.0"
