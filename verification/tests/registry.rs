use rtc_signal::client::Client;
use rtc_signal::client_manager::ClientManager;
use rtc_signal::peer_addr::PeerAddr;
use tokio::sync::mpsc::unbounded_channel;
use tokio_tungstenite::tungstenite::Message;

fn addr(port: u16) -> PeerAddr {
    PeerAddr::v4(127, 0, 0, 1, port)
}

fn client() -> Client {
    let (tx, _rx) = unbounded_channel::<Message>();
    Client::new(tx)
}

#[test]
fn new_registry_is_empty() {
    let m = ClientManager::new();
    assert_eq!(m.len(), 0);
    assert!(m.get_clients().is_empty());
    assert!(m.get_client(&addr(1)).is_none());
}

#[test]
fn added_client_is_found_until_removed() {
    let mut m = ClientManager::new();
    m.add_client(addr(1), client());
    m.add_client(addr(2), client());
    assert_eq!(m.len(), 2);
    assert!(m.get_client(&addr(1)).is_some());
    assert!(m.get_client(&addr(2)).is_some());
    assert!(m.get_client(&addr(3)).is_none());
    m.remove_client(&addr(1));
    assert!(m.get_client(&addr(1)).is_none());
    assert!(m.get_client(&addr(2)).is_some());
    assert_eq!(m.get_clients(), vec![addr(2)]);
}

#[test]
fn clients_are_listed_in_registration_order() {
    let mut m = ClientManager::new();
    m.add_client(addr(3), client());
    m.add_client(addr(1), client());
    m.add_client(addr(2), client());
    assert_eq!(m.get_clients(), vec![addr(3), addr(1), addr(2)]);
    m.remove_client(&addr(1));
    assert_eq!(m.get_clients(), vec![addr(3), addr(2)]);
}

#[test]
fn re_adding_an_address_replaces_in_place() {
    let mut m = ClientManager::new();
    m.add_client(addr(1), client());
    m.add_client(addr(2), client());
    m.record_peer_connection(&addr(1), true);
    assert!(!m.get_client(&addr(1)).unwrap().pc.get_peer_connection_is_none());
    m.add_client(addr(1), client());
    assert_eq!(m.len(), 2);
    assert_eq!(m.get_clients(), vec![addr(1), addr(2)]);
    assert!(m.get_client(&addr(1)).unwrap().pc.get_peer_connection_is_none());
}

#[test]
fn removing_an_unknown_address_changes_nothing() {
    let mut m = ClientManager::new();
    m.add_client(addr(1), client());
    m.remove_client(&addr(9));
    assert_eq!(m.get_clients(), vec![addr(1)]);
}

#[test]
fn add_then_remove_restores_the_registry() {
    let mut m = ClientManager::new();
    m.add_client(addr(1), client());
    m.add_client(addr(2), client());
    let before = m.get_clients();
    m.add_client(addr(7), client());
    m.remove_client(&addr(7));
    assert_eq!(m.get_clients(), before);
}

#[test]
fn ipv4_and_ipv6_addresses_differ() {
    let v4 = PeerAddr::v4(127, 0, 0, 1, 80);
    let v6 = PeerAddr::v6(0x7f00_0001, 80, 0, 0);
    assert_ne!(v4, v6);
    assert_eq!(v4.ip, 0x7f00_0001);
    assert_eq!(PeerAddr::v6(1, 2, 3, 4), PeerAddr::v6(1, 2, 3, 4));
    assert_ne!(PeerAddr::v6(1, 2, 3, 4), PeerAddr::v6(1, 2, 3, 5));
}

#[test]
fn peer_connection_outcome_is_recorded() {
    let mut m = ClientManager::new();
    m.add_client(addr(1), client());
    assert!(m.get_client(&addr(1)).unwrap().pc.get_peer_connection_is_none());
    m.record_peer_connection(&addr(1), false);
    assert!(m.get_client(&addr(1)).unwrap().pc.get_peer_connection_is_none());
    m.record_peer_connection(&addr(1), true);
    assert!(!m.get_client(&addr(1)).unwrap().pc.get_peer_connection_is_none());
    m.record_peer_connection(&addr(1), false);
    assert!(!m.get_client(&addr(1)).unwrap().pc.get_peer_connection_is_none());
    m.record_peer_connection(&addr(5), true);
    assert!(m.get_client(&addr(5)).is_none());
}
