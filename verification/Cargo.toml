[package]
name = "pixel_game_lib"
version = "0.1.0"
edition = "2021"
publish = false

[dependencies]
assets_manager = { version = "*", features = ["toml", "png"] }
bitvec = "*"
blit = "*"
env_logger = "*"
glamour = "*"
hashbrown = "*"
kira = "*"
log = "*"
miette = "*"
pollster = "*"
serde = { version = "*", features = ["derive"] }
smol_str = "*"
taffy = "*"
vek = "*"
web-time = "*"
winit = "*"
winit_input_helper = "*"
