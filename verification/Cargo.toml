[package]
name = "libp2p_webrtc_browser"
version = "0.1.0"
edition = "2021"
publish = false

[dependencies]
asynchronous-codec = "=0.7.0"
futures = "0.3"
js-sys = "0.3"
libp2p-core = "=0.43.2"
libp2p-identity = { version = "=0.2.14", features = ["ed25519", "peerid", "rand"] }
libp2p-noise = "=0.46.1"
libp2p-relay = "=0.20.0"
libp2p-webrtc-utils = "=0.4.0"
libp2p-webrtc-websys = "=0.4.0"
libp2p-websocket-websys = "=0.5.0"
libp2p-yamux = "=0.47.0"
multistream-select = "=0.13.0"
prost = "=0.13.5"
quick-protobuf = "=0.8.1"
quick-protobuf-codec = "=0.3.1"
wasm-bindgen = "0.2"
web-sys = { version = "0.3", features = ["RtcConfiguration"] }
