[package]
name = "peer_negotiator"
version = "0.1.0"
edition = "2021"
publish = false

[dependencies]
serde = { version = "1", features = ["derive"] }
serde_json = { version = "1", features = ["preserve_order"] }
log = "0.4"
js-sys = "0.3"
wasm-bindgen = "0.2"
wasm-logger = "0.2"
console_error_panic_hook = "0.1"
yew = "0.18"
web-sys = { version = "0.3", features = ["BinaryType", "Event", "EventTarget", "HtmlInputElement", "HtmlTextAreaElement", "KeyboardEvent", "MessageEvent", "MouseEvent", "RtcConfiguration", "RtcDataChannel", "RtcDataChannelInit", "RtcDataChannelState", "RtcIceCandidate", "RtcIceCandidateInit", "RtcIceServer", "RtcPeerConnection", "RtcPeerConnectionIceEvent", "RtcSdpType", "RtcSessionDescription", "RtcSessionDescriptionInit", "RtcSignalingState", "WebSocket"] }
