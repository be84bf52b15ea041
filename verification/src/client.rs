//! A connected client: the channel its WebSocket writer drains, and its
//! WebRTC state.

use vstd::prelude::*;
use tokio::sync::mpsc::UnboundedSender;
use tokio_tungstenite::tungstenite::Message;
use crate::webrtc_client::WebRTCClient;

verus! {

/// A connected client.
pub struct Client {
    /// Frames put here are written to the client's WebSocket.
    pub ws: UnboundedSender<Message>,
    /// The client's peer-connection state.
    pub pc: WebRTCClient,
}

impl Client {
    /// A client that writes to `ws` and has no peer connection yet.
    pub fn new(ws: UnboundedSender<Message>) -> (res: Client)
        ensures
            res.ws == ws,
            !res.pc.has_peer_connection(),
    {
        Client { ws, pc: WebRTCClient::new() }
    }
}

} // verus!
