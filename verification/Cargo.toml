[package]
name = "audio_analysis"
version = "0.1.0"
edition = "2021"
publish = false

[dependencies]
anyhow = "=1.0.104"
symphonia = "=0.5.5"
stratum-dsp = "=1.0.0"
rustc_apfloat = "=0.2.3"
bytemuck = "=1.25.2"
