//! The peer-connection side of a client: whether it has a WebRTC peer
//! connection yet, how one is configured, and the decisions taken on the
//! SDP and ICE traffic that passes through it.

use vstd::prelude::*;
use crate::outside::{
    RemoteDescription, SdpType, sdp_answer, sdp_answer_parses, sdp_offer, sdp_offer_parses,
};
use crate::peer_addr::PeerAddr;
use crate::signal::{Delivery, IceCandidateSignalMessage, candidate_frame, opt_view};

verus! {

/// The media kind of a track or a transceiver.
#[derive(Clone, Copy, Debug, PartialEq, Eq, Structural)]
pub enum MediaKind {
    Unspecified,
    Audio,
    Video,
}

/// What is known of one transceiver of a peer connection: whether its
/// sender already carries a track, and its media kind.
#[derive(Clone, Copy, Debug, PartialEq, Eq, Structural)]
pub struct TransceiverSlot {
    pub has_track: bool,
    pub kind: MediaKind,
}

/// Which way a transceiver carries media.
#[derive(Clone, Copy, Debug, PartialEq, Eq, Structural)]
pub enum TransceiverDirection {
    Sendrecv,
    Sendonly,
    Recvonly,
    Inactive,
}

/// Which ICE candidates a peer connection may use.
#[derive(Clone, Copy, Debug, PartialEq, Eq, Structural)]
pub enum IceTransportPolicy {
    All,
    Relay,
}

/// A transceiver to add to a new peer connection: its kind, its direction,
/// and the restriction id of its one send encoding (empty for none).
pub struct TransceiverPlan {
    pub kind: MediaKind,
    pub direction: TransceiverDirection,
    pub rid: String,
}

/// How a new peer connection is set up: one ICE server per URL, the ICE
/// transport policy, and the transceivers to add, in order.
pub struct PeerConnectionPlan {
    pub ice_server_urls: Vec<String>,
    pub ice_transport_policy: IceTransportPolicy,
    pub transceivers: Vec<TransceiverPlan>,
}

/// An ICE candidate as a peer connection takes and gives it.
pub struct IceCandidateInit {
    pub candidate: String,
    pub sdp_mid: Option<String>,
    pub sdp_mline_index: Option<u16>,
    pub username_fragment: Option<String>,
}

/// The WebRTC state of one client.
pub struct WebRTCClient {
    peer_connection: bool,
}

/// A transceiver can take a track of `kind` when it has none yet and is of
/// that kind.
pub open spec fn is_free_for(slot: TransceiverSlot, kind: MediaKind) -> bool {
    !slot.has_track && slot.kind == kind
}

/// The ICE server URLs a new peer connection uses.
pub open spec fn ice_server_urls() -> Seq<Seq<char>> {
    seq!["stun:stun.cloudflare.com:3478"@, "stun:stun.l.google.com:19302"@]
}

/// Law: the transceiver chosen for a track has the track's media kind and
/// no track yet, and every transceiver before it lacks one of the two; no
/// transceiver is chosen only when none has both.
pub proof fn lemma_on_track_choice(slots: Seq<TransceiverSlot>, track_kind: MediaKind, res: Option<usize>)
    requires
        match res {
            Some(i) => {
                &&& i < slots.len()
                &&& is_free_for(slots[i as int], track_kind)
                &&& forall|j: int| 0 <= j < i ==> !is_free_for(#[trigger] slots[j], track_kind)
            },
            None => forall|j: int| 0 <= j < slots.len() ==> !is_free_for(#[trigger] slots[j], track_kind),
        },
    ensures
        res matches Some(i) ==> {
            &&& i < slots.len()
            &&& slots[i as int].kind == track_kind
            &&& !slots[i as int].has_track
            &&& forall|j: int| 0 <= j < i ==> (#[trigger] slots[j]).has_track || slots[j].kind != track_kind
        },
        res is None ==> forall|j: int| 0 <= j < slots.len() ==> (#[trigger] slots[j]).has_track
            || slots[j].kind != track_kind,
{
    match res {
        Some(i) => {
            assert forall|j: int| 0 <= j < i implies (#[trigger] slots[j]).has_track || slots[j].kind != track_kind by {
                assert(!is_free_for(slots[j], track_kind));
            }
        },
        None => {
            assert forall|j: int| 0 <= j < slots.len() implies (#[trigger] slots[j]).has_track || slots[j].kind != track_kind by {
                assert(!is_free_for(slots[j], track_kind));
            }
        },
    }
}

impl WebRTCClient {
    /// Whether this client has a peer connection.
    pub closed spec fn has_peer_connection(&self) -> bool {
        self.peer_connection
    }

    /// The state after an attempt to create a peer connection that
    /// succeeded (`created`) or not.
    pub closed spec fn after_create(&self, created: bool) -> WebRTCClient {
        WebRTCClient { peer_connection: self.peer_connection || created }
    }

    /// Law: an attempt to create a peer connection leaves one in place
    /// exactly when it succeeded or one was there already; an existing peer
    /// connection is never lost.
    pub proof fn lemma_after_create(&self, created: bool)
        ensures
            self.after_create(created).has_peer_connection()
                == (self.has_peer_connection() || created),
    {
    }

    /// A client without a peer connection.
    pub fn new() -> (res: WebRTCClient)
        ensures
            !res.has_peer_connection(),
    {
        WebRTCClient { peer_connection: false }
    }

    /// Whether this client still has no peer connection.
    pub fn get_peer_connection_is_none(&self) -> (res: bool)
        ensures
            res == !self.has_peer_connection(),
    {
        !self.peer_connection
    }

    /// Records an attempt to create a peer connection: one is kept when the
    /// attempt succeeded; a failed attempt leaves the state as it was.
    pub fn create_peer_connection(&mut self, created: bool)
        ensures
            *final(self) == old(self).after_create(created),
            final(self).has_peer_connection() == (old(self).has_peer_connection() || created),
    {
        if created {
            self.peer_connection = true;
        }
    }

    /// The configuration of a new peer connection: the two STUN servers,
    /// every ICE transport allowed, then a send-and-receive video
    /// transceiver whose encoding has restriction id `q_360` and a
    /// send-and-receive audio transceiver with a default encoding.
    pub fn peer_connection_plan() -> (plan: PeerConnectionPlan)
        ensures
            plan.ice_server_urls@.map_values(|u: String| u@) == ice_server_urls(),
            plan.ice_transport_policy == IceTransportPolicy::All,
            plan.transceivers.len() == 2,
            plan.transceivers[0].kind == MediaKind::Video,
            plan.transceivers[0].direction == TransceiverDirection::Sendrecv,
            plan.transceivers[0].rid@ == "q_360"@,
            plan.transceivers[1].kind == MediaKind::Audio,
            plan.transceivers[1].direction == TransceiverDirection::Sendrecv,
            plan.transceivers[1].rid@ == Seq::<char>::empty(),
    {
        let mut urls: Vec<String> = Vec::new();
        urls.push(String::from_str("stun:stun.cloudflare.com:3478"));
        urls.push(String::from_str("stun:stun.l.google.com:19302"));
        let mut transceivers: Vec<TransceiverPlan> = Vec::new();
        transceivers.push(TransceiverPlan {
            kind: MediaKind::Video,
            direction: TransceiverDirection::Sendrecv,
            rid: String::from_str("q_360"),
        });
        transceivers.push(TransceiverPlan {
            kind: MediaKind::Audio,
            direction: TransceiverDirection::Sendrecv,
            rid: String::new(),
        });
        assert(urls@.map_values(|u: String| u@) =~= ice_server_urls());
        PeerConnectionPlan {
            ice_server_urls: urls,
            ice_transport_policy: IceTransportPolicy::All,
            transceivers,
        }
    }

    /// The remote description to install for `sdp`: the offer of `sdp` when
    /// `answer_or_offer` holds, the answer of `sdp` otherwise; `None` when
    /// webrtc does not parse it.  Installing one needs a peer connection.
    pub fn set_remote_description(&self, sdp: String, answer_or_offer: bool) -> (res: Option<RemoteDescription>)
        requires
            self.has_peer_connection(),
        ensures
            res is Some <==> (if answer_or_offer {
                sdp_offer_parses(sdp@)
            } else {
                sdp_answer_parses(sdp@)
            }),
            res matches Some(d) ==> {
                &&& d.parsed_type() == (if answer_or_offer { SdpType::Offer } else { SdpType::Answer })
                &&& d.parsed_sdp() == sdp@
            },
    {
        if answer_or_offer {
            sdp_offer(sdp)
        } else {
            sdp_answer(sdp)
        }
    }

    /// The candidate to hand to the peer connection for a candidate message.
    /// Adding one needs a peer connection.
    pub fn add_ice_candidate(
        &self,
        content: String,
        sdp_mid: Option<String>,
        sdp_mline_index: Option<u16>,
        username_fragment: Option<String>,
    ) -> (res: IceCandidateInit)
        requires
            self.has_peer_connection(),
        ensures
            res.candidate@ == content@,
            opt_view(res.sdp_mid) == opt_view(sdp_mid),
            res.sdp_mline_index == sdp_mline_index,
            opt_view(res.username_fragment) == opt_view(username_fragment),
    {
        IceCandidateInit { candidate: content, sdp_mid, sdp_mline_index, username_fragment }
    }

    /// The message announcing a locally gathered candidate to the client.
    pub fn candidate_message(candidate: IceCandidateInit) -> (msg: IceCandidateSignalMessage)
        ensures
            msg.msg_type@ == "Candidate"@,
            msg.content@ == candidate.candidate@,
            opt_view(msg.sdp_mid) == opt_view(candidate.sdp_mid),
            msg.sdp_mline_index == candidate.sdp_mline_index,
            opt_view(msg.username_fragment) == opt_view(candidate.username_fragment),
    {
        IceCandidateSignalMessage {
            msg_type: String::from_str("Candidate"),
            content: candidate.candidate,
            sdp_mid: candidate.sdp_mid,
            sdp_mline_index: candidate.sdp_mline_index,
            username_fragment: candidate.username_fragment,
        }
    }

    /// The frame announcing a locally gathered candidate to the client at
    /// `addr`, as a `Candidate` message, for that client's channel.
    pub fn gather_and_send_candidates(addr: PeerAddr, candidate: IceCandidateInit) -> (res: Delivery)
        ensures
            res.to == addr,
            res.frame@ == candidate_frame(
                "Candidate"@,
                candidate.candidate@,
                opt_view(candidate.sdp_mid),
                candidate.sdp_mline_index,
                opt_view(candidate.username_fragment),
            ),
    {
        let msg = Self::candidate_message(candidate);
        Delivery { to: addr, frame: msg.to_json() }
    }

    /// The transceiver a newly received track is attached to: the first one
    /// without a track whose kind is the track's, if any.
    pub fn on_track(slots: &Vec<TransceiverSlot>, track_kind: MediaKind) -> (res: Option<usize>)
        ensures
            match res {
                Some(i) => {
                    &&& i < slots.len()
                    &&& is_free_for(slots@[i as int], track_kind)
                    &&& forall|j: int| 0 <= j < i ==> !is_free_for(#[trigger] slots@[j], track_kind)
                },
                None => forall|j: int| 0 <= j < slots.len() ==> !is_free_for(#[trigger] slots@[j], track_kind),
            },
            res matches Some(i) ==> slots@[i as int].kind == track_kind && !slots@[i as int].has_track,
    {
        let mut i: usize = 0;
        while i < slots.len()
            invariant
                i <= slots.len(),
                forall|j: int| 0 <= j < i ==> !is_free_for(#[trigger] slots@[j], track_kind),
            decreases slots.len() - i,
        {
            if !slots[i].has_track && slots[i].kind == track_kind {
                return Some(i);
            }
            i += 1;
        }
        None
    }
}

} // verus!
