use rtc_signal::client::Client;
use rtc_signal::client_manager::ClientManager;
use rtc_signal::peer_addr::PeerAddr;
use rtc_signal::session::{
    answer_delivery, answer_message, chat_message, handle_message, offer_message, offer_step,
    Inbound, OfferAction, OfferEvent, OfferExchange, OfferPlan, Reaction, WsEvent,
};
use rtc_signal::SdpType;
use rtc_signal::signal::{ChatMessage, Delivery, IceCandidateSignalMessage, OfferSignalMessage};
use tokio::sync::mpsc::{unbounded_channel, UnboundedReceiver};
use tokio_tungstenite::tungstenite::Message;

fn addr(port: u16) -> PeerAddr {
    PeerAddr::v4(10, 0, 0, 1, port)
}

fn register(m: &mut ClientManager, port: u16) -> UnboundedReceiver<Message> {
    let (tx, rx) = unbounded_channel::<Message>();
    m.add_client(addr(port), Client::new(tx));
    rx
}

fn text_of(rx: &mut UnboundedReceiver<Message>) -> Option<String> {
    match rx.try_recv() {
        Ok(Message::Text(t)) => Some(t),
        _ => None,
    }
}

/// Hands each delivery to its client's channel, as the server does.
fn deliver(m: &ClientManager, ds: &[Delivery]) -> Vec<bool> {
    ds.iter()
        .map(|d| {
            m.get_client(&d.to)
                .map(|c| c.ws.send(Message::Text(d.frame.clone())).is_ok())
                .unwrap_or(false)
        })
        .collect()
}

fn chat(content: &str) -> ChatMessage {
    ChatMessage { msg_type: "Chat".to_string(), content: content.to_string() }
}

fn candidate() -> IceCandidateSignalMessage {
    IceCandidateSignalMessage {
        msg_type: "Candidate".to_string(),
        content: "candidate:0 1 UDP 1 1.2.3.4 9 typ host".to_string(),
        sdp_mid: Some("0".to_string()),
        sdp_mline_index: Some(0),
        username_fragment: None,
    }
}

#[test]
fn chat_is_relayed_to_every_other_client() {
    let mut m = ClientManager::new();
    let mut ra = register(&mut m, 1);
    let mut rb = register(&mut m, 2);
    let mut rc = register(&mut m, 3);
    let r = handle_message(&mut m, &addr(2), WsEvent::Text(Inbound::Chat(Some(chat("hi")))));
    let expected = r#"{"msg_type":"Chat","content":"hi"}"#.to_string();
    match r {
        Reaction::Relayed(sent) => {
            assert_eq!(
                sent,
                vec![
                    Delivery { to: addr(1), frame: expected.clone() },
                    Delivery { to: addr(3), frame: expected.clone() },
                ]
            );
            assert_eq!(deliver(&m, &sent), vec![true, true]);
        }
        _ => panic!("chat not relayed"),
    }
    assert_eq!(text_of(&mut ra), Some(expected.clone()));
    assert_eq!(text_of(&mut rc), Some(expected));
    assert_eq!(text_of(&mut rb), None);
    assert_eq!(text_of(&mut ra), None);
    assert_eq!(m.len(), 3);
}

#[test]
fn answer_is_relayed_like_chat() {
    let mut m = ClientManager::new();
    let mut ra = register(&mut m, 1);
    let _rb = register(&mut m, 2);
    let answer = ChatMessage { msg_type: "Answer".to_string(), content: "sdp".to_string() };
    let r = handle_message(&mut m, &addr(2), WsEvent::Text(Inbound::Answer(Some(answer))));
    let frame = r#"{"msg_type":"Answer","content":"sdp"}"#.to_string();
    match r {
        Reaction::Relayed(sent) => {
            assert_eq!(sent, vec![Delivery { to: addr(1), frame: frame.clone() }]);
            deliver(&m, &sent);
        }
        _ => panic!("answer not relayed"),
    }
    assert_eq!(text_of(&mut ra), Some(frame));
}

#[test]
fn relay_to_a_closed_channel_is_refused_by_the_channel() {
    let mut m = ClientManager::new();
    let ra = register(&mut m, 1);
    let _rb = register(&mut m, 2);
    drop(ra);
    let sent = chat_message(&m, &chat("x"), &addr(2));
    assert_eq!(
        sent,
        vec![Delivery { to: addr(1), frame: r#"{"msg_type":"Chat","content":"x"}"#.to_string() }]
    );
    assert_eq!(deliver(&m, &sent), vec![false]);
}

#[test]
fn chat_from_unregistered_sender_reaches_everyone() {
    let mut m = ClientManager::new();
    let _ra = register(&mut m, 1);
    let _rb = register(&mut m, 2);
    let sent = chat_message(&m, &chat("x"), &addr(9));
    let targets: Vec<_> = sent.iter().map(|d| d.to).collect();
    assert_eq!(targets, vec![addr(1), addr(2)]);
}

#[test]
fn close_and_failure_unregister_the_client() {
    let mut m = ClientManager::new();
    let _ra = register(&mut m, 1);
    let _rb = register(&mut m, 2);
    assert!(matches!(handle_message(&mut m, &addr(1), WsEvent::Close), Reaction::Disconnected));
    assert!(m.get_client(&addr(1)).is_none());
    assert!(matches!(handle_message(&mut m, &addr(2), WsEvent::Failed), Reaction::Disconnected));
    assert_eq!(m.len(), 0);
    let _rc = register(&mut m, 3);
    assert!(matches!(handle_message(&mut m, &addr(3), WsEvent::Ended), Reaction::Disconnected));
    assert_eq!(m.len(), 0);
}

#[test]
fn disconnected_client_gets_no_more_chat() {
    let mut m = ClientManager::new();
    let mut ra = register(&mut m, 1);
    let _rb = register(&mut m, 2);
    handle_message(&mut m, &addr(1), WsEvent::Close);
    let r = handle_message(&mut m, &addr(2), WsEvent::Text(Inbound::Chat(Some(chat("late")))));
    assert!(matches!(r, Reaction::Relayed(ref s) if s.is_empty()));
    let r = handle_message(&mut m, &addr(1), WsEvent::Text(Inbound::Chat(Some(chat("ghost")))));
    match r {
        Reaction::Relayed(sent) => {
            let targets: Vec<_> = sent.iter().map(|d| d.to).collect();
            assert_eq!(targets, vec![addr(2)]);
        }
        _ => panic!("not relayed"),
    }
    assert_eq!(text_of(&mut ra), None);
}

#[test]
fn bad_frames_are_reported_or_ignored() {
    let mut m = ClientManager::new();
    let _ra = register(&mut m, 1);
    let a = addr(1);
    assert!(matches!(handle_message(&mut m, &a, WsEvent::Text(Inbound::Malformed)), Reaction::ReportMalformed));
    assert!(matches!(handle_message(&mut m, &a, WsEvent::Text(Inbound::UnknownType)), Reaction::ReportUnknownType));
    assert!(matches!(handle_message(&mut m, &a, WsEvent::Text(Inbound::Untyped)), Reaction::Ignored));
    assert!(matches!(handle_message(&mut m, &a, WsEvent::Text(Inbound::Chat(None))), Reaction::Ignored));
    assert!(matches!(handle_message(&mut m, &a, WsEvent::Text(Inbound::Answer(None))), Reaction::Ignored));
    assert!(matches!(handle_message(&mut m, &a, WsEvent::Text(Inbound::Offer(None))), Reaction::Ignored));
    assert!(matches!(handle_message(&mut m, &a, WsEvent::Text(Inbound::Candidate(None))), Reaction::Ignored));
    assert!(matches!(handle_message(&mut m, &a, WsEvent::Other), Reaction::Ignored));
    assert_eq!(m.get_clients(), vec![a]);
}

#[test]
fn offer_creates_a_peer_connection_only_once() {
    let mut m = ClientManager::new();
    let _ra = register(&mut m, 1);
    let offer = OfferSignalMessage { msg_type: "Offer".to_string(), content: "v=0".to_string() };
    match handle_message(&mut m, &addr(1), WsEvent::Text(Inbound::Offer(Some(offer)))) {
        Reaction::Offer(plan) => {
            assert!(plan.create_peer_connection);
            assert!(plan.answer_or_offer);
            assert_eq!(plan.sdp, "v=0");
        }
        _ => panic!("no offer plan"),
    }
    m.record_peer_connection(&addr(1), true);
    let offer = OfferSignalMessage { msg_type: "Offer".to_string(), content: "v=1".to_string() };
    let plan = offer_message(&m, offer, &addr(1)).unwrap();
    assert!(!plan.create_peer_connection);
    assert_eq!(plan.sdp, "v=1");
}

#[test]
fn offer_from_unregistered_client_is_ignored() {
    let mut m = ClientManager::new();
    let offer = OfferSignalMessage { msg_type: "Offer".to_string(), content: "v=0".to_string() };
    assert!(matches!(
        handle_message(&mut m, &addr(1), WsEvent::Text(Inbound::Offer(Some(offer)))),
        Reaction::Ignored
    ));
}

#[test]
fn candidate_needs_a_registered_client() {
    let mut m = ClientManager::new();
    assert!(matches!(
        handle_message(&mut m, &addr(1), WsEvent::Text(Inbound::Candidate(Some(candidate())))),
        Reaction::Ignored
    ));
    let _ra = register(&mut m, 1);
    m.record_peer_connection(&addr(1), true);
    match handle_message(&mut m, &addr(1), WsEvent::Text(Inbound::Candidate(Some(candidate())))) {
        Reaction::Candidate(init) => {
            assert_eq!(init.candidate, "candidate:0 1 UDP 1 1.2.3.4 9 typ host");
            assert_eq!(init.sdp_mid, Some("0".to_string()));
            assert_eq!(init.sdp_mline_index, Some(0));
            assert_eq!(init.username_fragment, None);
        }
        _ => panic!("no candidate"),
    }
}

#[test]
fn answer_goes_back_to_the_offering_client() {
    let mut m = ClientManager::new();
    let mut ra = register(&mut m, 1);
    let mut rb = register(&mut m, 2);
    let d = answer_delivery(&m, &addr(1), "v=0 answer".to_string()).unwrap();
    assert_eq!(d.to, addr(1));
    assert_eq!(d.frame, r#"{"msg_type":"Answer","content":"v=0 answer"}"#);
    assert_eq!(deliver(&m, &[d.clone()]), vec![true]);
    assert_eq!(text_of(&mut ra), Some(d.frame));
    assert_eq!(text_of(&mut ra), None);
    assert_eq!(text_of(&mut rb), None);
    assert_eq!(answer_delivery(&m, &addr(7), "x".to_string()), None);
    let msg = answer_message("s".to_string());
    assert_eq!(msg.msg_type, "Answer");
    assert_eq!(msg.content, "s");
}

const SDP: &str = "v=0\r\no=- 0 0 IN IP4 127.0.0.1\r\ns=-\r\nt=0 0\r\n";

fn plan(create: bool, sdp: &str) -> OfferPlan {
    OfferPlan { create_peer_connection: create, sdp: sdp.to_string(), answer_or_offer: true }
}

#[test]
fn first_offer_creates_installs_and_answers_the_sender() {
    let mut m = ClientManager::new();
    let mut ra = register(&mut m, 1);
    let mut rb = register(&mut m, 2);
    let a = addr(1);
    let (st, act) = offer_step(&mut m, &a, OfferExchange::Idle, OfferEvent::Begin(plan(true, SDP)));
    assert!(matches!(act, OfferAction::CreatePeerConnection));
    let (st, act) = offer_step(&mut m, &a, st, OfferEvent::Created(true));
    assert!(!m.get_client(&a).unwrap().pc.get_peer_connection_is_none());
    match act {
        OfferAction::Install { register_handlers, description } => {
            assert!(register_handlers);
            assert_eq!(description.sdp_type(), SdpType::Offer);
            assert_eq!(description.sdp(), SDP);
        }
        _ => panic!("no install"),
    }
    let (st, act) = offer_step(&mut m, &a, st, OfferEvent::Answered("v=0 ans".to_string()));
    assert!(matches!(st, OfferExchange::Finished));
    match act {
        OfferAction::Deliver(d) => {
            assert_eq!(d.to, a);
            assert_eq!(d.frame, r#"{"msg_type":"Answer","content":"v=0 ans"}"#);
            assert_eq!(deliver(&m, &[d]), vec![true]);
        }
        _ => panic!("no answer"),
    }
    assert_eq!(text_of(&mut ra), Some(r#"{"msg_type":"Answer","content":"v=0 ans"}"#.to_string()));
    assert_eq!(text_of(&mut ra), None);
    assert_eq!(text_of(&mut rb), None);
    assert_eq!(m.get_clients(), vec![addr(1), addr(2)]);
}

#[test]
fn later_offer_reuses_the_connection() {
    let mut m = ClientManager::new();
    let _ra = register(&mut m, 1);
    let a = addr(1);
    m.record_peer_connection(&a, true);
    let (st, act) = offer_step(&mut m, &a, OfferExchange::Idle, OfferEvent::Begin(plan(false, SDP)));
    assert!(matches!(st, OfferExchange::Answering));
    match act {
        OfferAction::Install { register_handlers, description } => {
            assert!(!register_handlers);
            assert_eq!(description.sdp_type(), SdpType::Offer);
        }
        _ => panic!("no install"),
    }
}

#[test]
fn offer_exchange_aborts_without_connection_or_with_bad_sdp() {
    let mut m = ClientManager::new();
    let _ra = register(&mut m, 1);
    let a = addr(1);
    let (st, _) = offer_step(&mut m, &a, OfferExchange::Idle, OfferEvent::Begin(plan(true, SDP)));
    let (_, act) = offer_step(&mut m, &a, st, OfferEvent::Created(false));
    assert!(matches!(act, OfferAction::Abort));
    m.record_peer_connection(&a, true);
    let (_, act) = offer_step(&mut m, &a, OfferExchange::Idle, OfferEvent::Begin(plan(false, "junk")));
    assert!(matches!(act, OfferAction::Abort));
}

#[test]
fn offer_exchange_for_unknown_client_does_nothing() {
    let mut m = ClientManager::new();
    let (st, act) = offer_step(&mut m, &addr(5), OfferExchange::Idle, OfferEvent::Begin(plan(true, SDP)));
    assert!(matches!(st, OfferExchange::Finished));
    assert!(matches!(act, OfferAction::Nothing));
    let (_, act) = offer_step(&mut m, &addr(5), OfferExchange::Answering, OfferEvent::Answered("x".to_string()));
    assert!(matches!(act, OfferAction::Nothing));
    let (_, act) = offer_step(&mut m, &addr(5), OfferExchange::Finished, OfferEvent::Created(true));
    assert!(matches!(act, OfferAction::Nothing));
}
