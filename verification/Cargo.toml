[package]
name = "vide_ffmpeg"
version = "0.1.0"
edition = "2021"
publish = false

[dependencies]
ac-ffmpeg = "=0.19.0"
ffimage = "=0.10.0"
bytemuck = "=1.25.2"
wgpu = "=0.12.0"

[dev-dependencies]
ffimage_yuv = "=0.10.0"
