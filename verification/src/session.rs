//! What the server does with each event on a client's WebSocket: relay a
//! chat line to the others, start the SDP offer/answer exchange, pass an
//! ICE candidate on, report a bad frame, or drop the client when its socket
//! closes or fails.  Waiting for frames, the peer-connection work that needs
//! awaiting, and handing frames to channels are the caller's; each decision,
//! and every frame and its recipient, is taken here.  The caller hands out
//! the deliveries a reaction carries and nothing else.

use vstd::prelude::*;
use crate::client::Client;
use crate::client_manager::{ClientManager, others, not_addr, lemma_filter_members, lemma_relay_targets};
use crate::peer_addr::PeerAddr;
use crate::signal::{
    ChatMessage, Delivery, IceCandidateSignalMessage, OfferSignalMessage, all_carry,
    delivery_targets, opt_view, text_frame,
};
use crate::outside::{RemoteDescription, SdpType, sdp_answer_parses, sdp_offer_parses};
use crate::webrtc_client::IceCandidateInit;

verus! {

/// What a text frame carried, as the JSON reader made it out.
pub enum Inbound {
    /// Not JSON.
    Malformed,
    /// JSON without a `msg_type` field.
    Untyped,
    /// A `msg_type` that is none of the four message types.
    UnknownType,
    /// A chat line; `None` when the fields do not fit a chat message.
    Chat(Option<ChatMessage>),
    /// An SDP offer; `None` when the fields do not fit an offer.
    Offer(Option<OfferSignalMessage>),
    /// An SDP answer, relayed like a chat line; `None` when the fields do not
    /// fit a chat message.
    Answer(Option<ChatMessage>),
    /// An ICE candidate; `None` when the fields do not fit a candidate.
    Candidate(Option<IceCandidateSignalMessage>),
}

/// An event on a client's WebSocket.
pub enum WsEvent {
    /// A text frame.
    Text(Inbound),
    /// A close frame.
    Close,
    /// A binary, ping, pong or raw frame.
    Other,
    /// Reading from the socket failed.
    Failed,
    /// The socket has no more frames.
    Ended,
}

/// The SDP exchange to run for an offer: create a peer connection first
/// when the client has none, then install `sdp` as the remote description
/// (as an offer when `answer_or_offer` holds) and answer it.
pub struct OfferPlan {
    pub create_peer_connection: bool,
    pub sdp: String,
    pub answer_or_offer: bool,
}

/// What the server did or has to do for an event.
pub enum Reaction {
    /// Nothing.
    Ignored,
    /// The frame was not JSON: report it and go on.
    ReportMalformed,
    /// The message type was not known: report it and go on.
    ReportUnknownType,
    /// Relay a chat line: hand out these deliveries.
    Relayed(Vec<Delivery>),
    /// Run this SDP exchange for the sender.
    Offer(OfferPlan),
    /// Add this candidate to the sender's peer connection.
    Candidate(IceCandidateInit),
    /// The socket is done: the client was unregistered and its loop ends.
    Disconnected,
}

/// The reaction `r` is the one due to `event` from `addr` when the registry
/// was `m`, and `m2` is the registry afterwards.
pub open spec fn reacts(
    m: ClientManager,
    addr: PeerAddr,
    event: WsEvent,
    r: Reaction,
    m2: ClientManager,
) -> bool {
    match event {
        WsEvent::Close | WsEvent::Failed | WsEvent::Ended => {
            &&& r is Disconnected
            &&& m2@ == m@.remove(addr)
            &&& m2.addrs() == others(m.addrs(), addr)
        },
        WsEvent::Other => r is Ignored && m2 == m,
        WsEvent::Text(inbound) => {
            &&& m2 == m
            &&& match inbound {
                Inbound::Malformed => r is ReportMalformed,
                Inbound::Untyped => r is Ignored,
                Inbound::UnknownType => r is ReportUnknownType,
                Inbound::Chat(None) | Inbound::Answer(None) | Inbound::Offer(None)
                | Inbound::Candidate(None) => r is Ignored,
                Inbound::Chat(Some(chat)) => match r {
                    Reaction::Relayed(sent) => {
                        &&& delivery_targets(sent@) == others(m.addrs(), addr)
                        &&& all_carry(sent@, text_frame(chat.msg_type@, chat.content@))
                    },
                    _ => false,
                },
                Inbound::Answer(Some(chat)) => match r {
                    Reaction::Relayed(sent) => {
                        &&& delivery_targets(sent@) == others(m.addrs(), addr)
                        &&& all_carry(sent@, text_frame(chat.msg_type@, chat.content@))
                    },
                    _ => false,
                },
                Inbound::Offer(Some(offer)) => if !m@.contains_key(addr) {
                    r is Ignored
                } else {
                    match r {
                        Reaction::Offer(plan) => {
                            &&& plan.create_peer_connection == !m@[addr].pc.has_peer_connection()
                            &&& plan.sdp@ == offer.content@
                            &&& plan.answer_or_offer
                        },
                        _ => false,
                    }
                },
                Inbound::Candidate(Some(c)) => if !m@.contains_key(addr) {
                    r is Ignored
                } else {
                    match r {
                        Reaction::Candidate(init) => {
                            &&& init.candidate@ == c.content@
                            &&& opt_view(init.sdp_mid) == opt_view(c.sdp_mid)
                            &&& init.sdp_mline_index == c.sdp_mline_index
                            &&& opt_view(init.username_fragment) == opt_view(c.username_fragment)
                        },
                        _ => false,
                    }
                },
            }
        },
    }
}

/// Relays a chat line from `addr`: one delivery of the frame of `chat` to
/// every other registered client, in registration order.
pub fn chat_message(manager: &ClientManager, chat: &ChatMessage, addr: &PeerAddr) -> (res: Vec<Delivery>)
    ensures
        delivery_targets(res@) == others(manager.addrs(), *addr),
        all_carry(res@, text_frame(chat.msg_type@, chat.content@)),
{
    let frame = chat.to_json();
    manager.deliveries_except(addr, &frame)
}

/// The SDP exchange an offer from `addr` calls for; `None` when no client is
/// registered there.
pub fn offer_message(manager: &ClientManager, offer: OfferSignalMessage, addr: &PeerAddr) -> (res: Option<OfferPlan>)
    ensures
        match res {
            None => !manager@.contains_key(*addr),
            Some(plan) => {
                &&& manager@.contains_key(*addr)
                &&& plan.create_peer_connection == !manager@[*addr].pc.has_peer_connection()
                &&& plan.sdp@ == offer.content@
                &&& plan.answer_or_offer
            },
        },
{
    match manager.get_client(addr) {
        None => None,
        Some(client) => Some(OfferPlan {
            create_peer_connection: client.pc.get_peer_connection_is_none(),
            sdp: offer.content,
            answer_or_offer: true,
        }),
    }
}

/// The message that answers an offer with `answer_sdp`.
pub fn answer_message(answer_sdp: String) -> (msg: OfferSignalMessage)
    ensures
        msg.msg_type@ == "Answer"@,
        msg.content@ == answer_sdp@,
{
    OfferSignalMessage { msg_type: String::from_str("Answer"), content: answer_sdp }
}

/// The delivery of the answer `answer_sdp` to the client at `addr`, which
/// made the offer; `None` when no client is registered there.
pub fn answer_delivery(manager: &ClientManager, addr: &PeerAddr, answer_sdp: String) -> (res: Option<Delivery>)
    ensures
        res is Some <==> manager@.contains_key(*addr),
        res matches Some(d) ==> d.to == *addr && d.frame@ == text_frame("Answer"@, answer_sdp@),
{
    match manager.get_client(addr) {
        None => None,
        Some(_) => Some(Delivery { to: *addr, frame: answer_message(answer_sdp).to_json() }),
    }
}

/// What to do with a candidate message from `addr`: `Ignored` when no client
/// is registered there, and otherwise the candidate to add to its peer
/// connection, which it must have.
pub fn candidate_message(manager: &ClientManager, candidate: IceCandidateSignalMessage, addr: &PeerAddr) -> (res: Reaction)
    requires
        manager@.contains_key(*addr) ==> manager@[*addr].pc.has_peer_connection(),
    ensures
        reacts(*manager, *addr, WsEvent::Text(Inbound::Candidate(Some(candidate))), res, *manager),
{
    match manager.get_client(addr) {
        None => Reaction::Ignored,
        Some(client) => Reaction::Candidate(client.pc.add_ice_candidate(
            candidate.content,
            candidate.sdp_mid,
            candidate.sdp_mline_index,
            candidate.username_fragment,
        )),
    }
}

/// Where the offer/answer exchange for one client stands.
pub enum OfferExchange {
    /// Not started.
    Idle,
    /// Waiting for a new peer connection; `sdp` is to be installed next.
    Creating { sdp: String, answer_or_offer: bool },
    /// The remote description is being installed and an answer made.
    Answering,
    /// Over.
    Finished,
}

/// What the caller reports to the exchange.
pub enum OfferEvent {
    /// Start the exchange an offer called for.
    Begin(OfferPlan),
    /// The attempt to create a peer connection succeeded or not.
    Created(bool),
    /// The peer connection answered with this SDP.
    Answered(String),
}

/// What the caller does next in the exchange.
pub enum OfferAction {
    /// Nothing more; the exchange is over.
    Nothing,
    /// Create a peer connection and report `Created`.
    CreatePeerConnection,
    /// Register the candidate and track handlers first when
    /// `register_handlers` holds, then install `description` as the remote
    /// description, make an answer and report `Answered`.
    Install { register_handlers: bool, description: RemoteDescription },
    /// Hand out this delivery; the exchange is over.
    Deliver(Delivery),
    /// The exchange cannot go on: the client has no peer connection, or its
    /// SDP does not parse.
    Abort,
}

/// Whether `sdp` parses as the description `answer_or_offer` asks for.
pub open spec fn sdp_parses(sdp: Seq<char>, answer_or_offer: bool) -> bool {
    if answer_or_offer { sdp_offer_parses(sdp) } else { sdp_answer_parses(sdp) }
}

/// The step that installs `sdp` for the client at `addr` in registry `m`:
/// nothing when the client is gone, an abort when it has no peer connection
/// or the SDP does not parse, and otherwise the parsed description of `sdp`,
/// of the asked-for type, to install.
pub open spec fn install_due(
    m: ClientManager,
    addr: PeerAddr,
    sdp: Seq<char>,
    answer_or_offer: bool,
    register: bool,
    next: OfferExchange,
    action: OfferAction,
) -> bool {
    if !m@.contains_key(addr) {
        next is Finished && action is Nothing
    } else if !m@[addr].pc.has_peer_connection() || !sdp_parses(sdp, answer_or_offer) {
        next is Finished && action is Abort
    } else {
        &&& next is Answering
        &&& match action {
            OfferAction::Install { register_handlers, description } => {
                &&& register_handlers == register
                &&& description.parsed_type()
                    == (if answer_or_offer { SdpType::Offer } else { SdpType::Answer })
                &&& description.parsed_sdp() == sdp
            },
            _ => false,
        }
    }
}

/// One step of the offer/answer exchange for the client at `addr`, from
/// `state` on `event`, with registry `m` before and `m2` after.
pub open spec fn offer_moves(
    m: ClientManager,
    addr: PeerAddr,
    state: OfferExchange,
    event: OfferEvent,
    next: OfferExchange,
    action: OfferAction,
    m2: ClientManager,
) -> bool {
    match (state, event) {
        (OfferExchange::Idle, OfferEvent::Begin(plan)) => {
            &&& m2 == m
            &&& if !m@.contains_key(addr) {
                next is Finished && action is Nothing
            } else if plan.create_peer_connection {
                &&& action is CreatePeerConnection
                &&& match next {
                    OfferExchange::Creating { sdp, answer_or_offer } => {
                        sdp@ == plan.sdp@ && answer_or_offer == plan.answer_or_offer
                    },
                    _ => false,
                }
            } else {
                install_due(m, addr, plan.sdp@, plan.answer_or_offer, false, next, action)
            }
        },
        (OfferExchange::Creating { sdp, answer_or_offer }, OfferEvent::Created(ok)) => {
            &&& m2.addrs() == m.addrs()
            &&& m2@ == (if m@.contains_key(addr) {
                m@.insert(addr, Client { ws: m@[addr].ws, pc: m@[addr].pc.after_create(ok) })
            } else {
                m@
            })
            &&& m@.contains_key(addr) ==> m2@[addr].pc.has_peer_connection()
                == (m@[addr].pc.has_peer_connection() || ok)
            &&& install_due(m2, addr, sdp@, answer_or_offer, true, next, action)
        },
        (OfferExchange::Answering, OfferEvent::Answered(answer_sdp)) => {
            &&& m2 == m
            &&& next is Finished
            &&& if m@.contains_key(addr) {
                match action {
                    OfferAction::Deliver(d) => d.to == addr && d.frame@ == text_frame("Answer"@, answer_sdp@),
                    _ => false,
                }
            } else {
                action is Nothing
            }
        },
        _ => m2 == m && next is Finished && action is Nothing,
    }
}

fn install_step(
    manager: &ClientManager,
    addr: &PeerAddr,
    sdp: String,
    answer_or_offer: bool,
    register: bool,
) -> (res: (OfferExchange, OfferAction))
    ensures
        install_due(*manager, *addr, sdp@, answer_or_offer, register, res.0, res.1),
{
    match manager.get_client(addr) {
        None => (OfferExchange::Finished, OfferAction::Nothing),
        Some(client) => {
            if client.pc.get_peer_connection_is_none() {
                (OfferExchange::Finished, OfferAction::Abort)
            } else {
                match client.pc.set_remote_description(sdp, answer_or_offer) {
                    Some(description) => (
                        OfferExchange::Answering,
                        OfferAction::Install { register_handlers: register, description },
                    ),
                    None => (OfferExchange::Finished, OfferAction::Abort),
                }
            }
        },
    }
}

/// Takes one step of the offer/answer exchange of the client at `addr`.
/// From `Begin(plan)`: nothing for an unregistered client; otherwise a new
/// peer connection first when the plan asks for one, then the remote
/// description of the offered SDP to install (with the candidate and track
/// handlers registered first for a new connection).  After `Created`: the
/// outcome is recorded and, when a connection is there, the description is
/// installed.  After `Answered`: the answer frame goes to the client.  An
/// exchange without a connection or with an SDP that does not parse aborts.
pub fn offer_step(
    manager: &mut ClientManager,
    addr: &PeerAddr,
    state: OfferExchange,
    event: OfferEvent,
) -> (res: (OfferExchange, OfferAction))
    ensures
        offer_moves(*old(manager), *addr, state, event, res.0, res.1, *final(manager)),
{
    match (state, event) {
        (OfferExchange::Idle, OfferEvent::Begin(plan)) => {
            if manager.get_client(addr).is_none() {
                (OfferExchange::Finished, OfferAction::Nothing)
            } else if plan.create_peer_connection {
                (
                    OfferExchange::Creating { sdp: plan.sdp, answer_or_offer: plan.answer_or_offer },
                    OfferAction::CreatePeerConnection,
                )
            } else {
                install_step(manager, addr, plan.sdp, plan.answer_or_offer, false)
            }
        },
        (OfferExchange::Creating { sdp, answer_or_offer }, OfferEvent::Created(ok)) => {
            manager.record_peer_connection(addr, ok);
            install_step(manager, addr, sdp, answer_or_offer, true)
        },
        (OfferExchange::Answering, OfferEvent::Answered(answer_sdp)) => {
            match answer_delivery(manager, addr, answer_sdp) {
                Some(d) => (OfferExchange::Finished, OfferAction::Deliver(d)),
                None => (OfferExchange::Finished, OfferAction::Nothing),
            }
        },
        _ => (OfferExchange::Finished, OfferAction::Nothing),
    }
}

/// Takes one event from the socket of the client at `addr`.  A close frame,
/// a read failure or the end of the stream unregisters the client and ends its loop; chat lines
/// and answers are relayed to the other clients; offers and candidates are
/// turned into the work the peer connection needs; everything else leaves
/// the registry as it is and sends nothing.  A candidate from a registered
/// client needs that client to have a peer connection.
pub fn handle_message(manager: &mut ClientManager, addr: &PeerAddr, event: WsEvent) -> (res: Reaction)
    requires
        (event matches WsEvent::Text(Inbound::Candidate(Some(_))) && old(manager)@.contains_key(*addr))
            ==> old(manager)@[*addr].pc.has_peer_connection(),
    ensures
        reacts(*old(manager), *addr, event, res, *final(manager)),
{
    match event {
        WsEvent::Close | WsEvent::Failed | WsEvent::Ended => {
            manager.remove_client(addr);
            Reaction::Disconnected
        },
        WsEvent::Other => Reaction::Ignored,
        WsEvent::Text(inbound) => match inbound {
            Inbound::Malformed => Reaction::ReportMalformed,
            Inbound::Untyped => Reaction::Ignored,
            Inbound::UnknownType => Reaction::ReportUnknownType,
            Inbound::Chat(None) | Inbound::Answer(None) | Inbound::Offer(None)
            | Inbound::Candidate(None) => Reaction::Ignored,
            Inbound::Chat(Some(chat)) | Inbound::Answer(Some(chat)) => {
                Reaction::Relayed(chat_message(manager, &chat, addr))
            },
            Inbound::Offer(Some(offer)) => match offer_message(manager, offer, addr) {
                None => Reaction::Ignored,
                Some(plan) => Reaction::Offer(plan),
            },
            Inbound::Candidate(Some(candidate)) => candidate_message(manager, candidate, addr),
        },
    }
}

/// Law: once the socket of the client at `addr` has closed, failed or ended, the
/// client is no longer registered, and no chat line relayed afterwards, from
/// any sender, reaches it.
pub proof fn lemma_disconnected_client_gets_no_relay(
    before: &ClientManager,
    after: &ClientManager,
    addr: PeerAddr,
    event: WsEvent,
    r: Reaction,
    from: PeerAddr,
)
    requires
        event is Close || event is Failed || event is Ended,
        reacts(*before, addr, event, r, *after),
    ensures
        !after@.contains_key(addr),
        !others(after.addrs(), from).contains(addr),
{
    lemma_filter_members(before.addrs(), not_addr(addr));
    lemma_filter_members(after.addrs(), not_addr(from));
}

/// Law: an offer from a registered client asks for a new peer connection
/// exactly when that client has none, so a client that has one keeps it; the
/// plan installs the offered SDP as an offer, and the registry is untouched.
pub proof fn lemma_offer_keeps_existing_connection(
    m: &ClientManager,
    addr: PeerAddr,
    offer: OfferSignalMessage,
    r: Reaction,
    m2: &ClientManager,
)
    requires
        reacts(*m, addr, WsEvent::Text(Inbound::Offer(Some(offer))), r, *m2),
        m@.contains_key(addr),
    ensures
        *m2 == *m,
        r matches Reaction::Offer(plan) && {
            &&& (m@[addr].pc.has_peer_connection() ==> !plan.create_peer_connection)
            &&& (!m@[addr].pc.has_peer_connection() ==> plan.create_peer_connection)
            &&& plan.sdp@ == offer.content@
            &&& plan.answer_or_offer
        },
{
}

/// Law: a candidate from a registered client reaches its peer connection
/// with every field as the client sent it: content, media id, line index
/// and username fragment.
pub proof fn lemma_candidate_keeps_fields(
    m: &ClientManager,
    addr: PeerAddr,
    c: IceCandidateSignalMessage,
    r: Reaction,
    m2: &ClientManager,
)
    requires
        reacts(*m, addr, WsEvent::Text(Inbound::Candidate(Some(c))), r, *m2),
        m@.contains_key(addr),
    ensures
        *m2 == *m,
        r matches Reaction::Candidate(init) && {
            &&& init.candidate@ == c.content@
            &&& init.sdp_mline_index == c.sdp_mline_index
            &&& (init.sdp_mid is Some <==> c.sdp_mid is Some)
            &&& (init.sdp_mid matches Some(x) ==> x@ == c.sdp_mid->0@)
            &&& (init.username_fragment is Some <==> c.username_fragment is Some)
            &&& (init.username_fragment matches Some(x) ==> x@ == c.username_fragment->0@)
        },
{
}

/// Law: a relayed chat line or SDP answer goes to every registered client
/// other than the sender, each exactly once, and to no one else; every
/// delivery carries the frame of the message.
pub proof fn lemma_relay_reaches_every_other_client(
    m: &ClientManager,
    addr: PeerAddr,
    msg: ChatMessage,
    as_answer: bool,
    r: Reaction,
    m2: &ClientManager,
)
    requires
        m.well_formed(),
        reacts(
            *m,
            addr,
            WsEvent::Text(if as_answer { Inbound::Answer(Some(msg)) } else { Inbound::Chat(Some(msg)) }),
            r,
            *m2,
        ),
    ensures
        *m2 == *m,
        r matches Reaction::Relayed(sent) && {
            &&& forall|a: PeerAddr| #[trigger] delivery_targets(sent@).contains(a)
                <==> (m@.contains_key(a) && a != addr)
            &&& delivery_targets(sent@).no_duplicates()
            &&& forall|i: int| 0 <= i < sent@.len()
                ==> (#[trigger] sent@[i]).frame@ == text_frame(msg.msg_type@, msg.content@)
        },
{
    lemma_relay_targets(m, addr);
}

} // verus!
