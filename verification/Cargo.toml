[package]
name = "audio_reactive"
version = "0.1.0"
edition = "2021"
publish = false

[dependencies]
infuse = "*"
instant = { version = "*", features = ["wasm-bindgen"] }
wasm-bindgen = "*"
wasm-bindgen-futures = "*"
web-sys = { version = "*", features = ["AnalyserNode", "AudioContext", "AudioDestinationNode", "AudioNode", "AudioParam", "DynamicsCompressorNode", "GainNode", "OscillatorNode", "OscillatorType", "console"] }
