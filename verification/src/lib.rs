//! Signalling core of a WebSocket/WebRTC relay server: the client registry,
//! the decisions taken for each frame a client sends, the JSON frames the
//! server sends back, and the peer-connection bookkeeping of each client.

mod outside;
pub mod client;
pub mod client_manager;
pub mod peer_addr;
pub mod session;
pub mod signal;
pub mod webrtc_client;

pub use outside::{
    RemoteDescription, SdpType, json_string_literal, sdp_answer_parses, sdp_offer_parses,
};
pub use peer_addr::PeerAddr;
