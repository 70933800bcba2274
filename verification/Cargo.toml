[package]
name = "shredder"
version = "0.1.0"
edition = "2021"
publish = false

[dependencies]
glam = "*"
js-sys = "*"
wasm-bindgen = "*"
wasm-bindgen-futures = "*"
console_error_panic_hook = "*"
meshtext = "*"
web-sys = { version = "*", features = ["AudioBuffer", "AudioBufferSourceNode", "AudioContext", "AudioDestinationNode", "AudioNode", "AudioParam", "AudioScheduledSourceNode", "BaseAudioContext", "GainNode"] }
