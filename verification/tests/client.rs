use peer_protocol::address::NetworkAddress;
use peer_protocol::client::{Client, Outgoing, HOST_PORT};
use peer_protocol::envelope::ControlEnvelope;
use peer_protocol::error::{Cause, ClientError, DecodeError, MessageError};
use peer_protocol::fields::Field;
use peer_protocol::identifier::PeerIdentifier;
use peer_protocol::message::Message;
use peer_protocol::server::ServerNode;
use peer_protocol::timestamp::Timestamp;

const TIME: &str = "2024-02-07T12:34:56Z";

fn address(port: u16) -> NetworkAddress {
    NetworkAddress { a: 127, b: 0, c: 0, d: 1, port }
}

fn time() -> Timestamp {
    Timestamp::parse(TIME).unwrap()
}

fn peer(value: u128) -> PeerIdentifier {
    PeerIdentifier { value }
}

fn found(queried: PeerIdentifier, port: u16) -> Vec<u8> {
    ControlEnvelope::LookupResponse { queried, resolved: Some(address(port)) }.encode()
}

fn not_found(queried: PeerIdentifier) -> Vec<u8> {
    ControlEnvelope::LookupResponse { queried, resolved: None }.encode()
}

fn accepted(assigned: PeerIdentifier, status: &str) -> Vec<u8> {
    ControlEnvelope::RegistrationResponse { status: status.to_string(), assigned }.encode()
}

fn message_from(src: u128, dst: u128, data: &str) -> Vec<u8> {
    Message::new_with_timestamp(peer(dst), peer(src), data, time()).unwrap().encode()
}

fn register(client: &mut Client, server: &mut ServerNode) -> PeerIdentifier {
    let request = client.registration_request();
    let reply = server.handle_request(&request).unwrap().unwrap();
    client.register_with_server(&reply).unwrap()
}

#[test]
fn the_server_is_expected_on_port_50000() {
    assert_eq!(HOST_PORT, 50000);
}

#[test]
fn a_new_peer_is_not_registered_and_knows_nobody() {
    let client = Client::build(50001);
    assert_eq!(client.listening_addr, address(50001));
    assert_eq!(client.server_addr, address(50000));
    assert!(client.uuid.is_nil());
    assert!(client.peer_map.is_empty());
    assert!(client.recv_queue.is_empty());
    assert_eq!(client.resolve(peer(1)), None);
}

#[test]
fn registration_request_carries_the_listening_address() {
    let client = Client::build(50001);
    assert_eq!(
        client.registration_request(),
        b"{\"req_type\":\"registration\",\"addr\":\"127.0.0.1:50001\"}".to_vec()
    );
}

#[test]
fn register_with_server_adopts_the_identifier() {
    let mut client = Client::build(50001);
    let assigned = client.register_with_server(&accepted(peer(77), "OK")).unwrap();
    assert_eq!(assigned, peer(77));
    assert_eq!(client.uuid, peer(77));
}

#[test]
fn register_with_server_refuses_another_status() {
    let mut client = Client::build(50001);
    let statuses = vec!["", "ok", "OK ", "error", "registry full"];
    for status in statuses {
        match client.register_with_server(&accepted(peer(77), status)) {
            Err(ClientError::ServerUnavailableError(message)) => {
                assert_eq!(message, "Error registering with server")
            }
            other => panic!("unexpected {:?}", other),
        }
        assert!(client.uuid.is_nil());
    }
}

#[test]
fn register_with_server_refuses_what_is_no_registration_response() {
    let mut client = Client::build(50001);
    let datagrams: Vec<Vec<u8>> = vec![
        b"not json".to_vec(),
        Vec::new(),
        b"{}".to_vec(),
        b"{\"status\":\"OK\"}".to_vec(),
        b"{\"status\":\"OK\",\"uuid\":\"none\"}".to_vec(),
        found(peer(77), 50002),
        client.registration_request(),
    ];
    for datagram in datagrams {
        match client.register_with_server(&datagram) {
            Err(ClientError::ServerUnavailableError(message)) => {
                assert_eq!(message, "Error registering with server")
            }
            other => panic!("unexpected {:?}", other),
        }
        assert!(client.uuid.is_nil());
    }
}

#[test]
fn lookup_request_asks_for_the_peer() {
    let client = Client::build(50001);
    assert_eq!(
        client.lookup_request(peer(0xa1a2a3a4b1b2c1c2d1d2d3d4d5d6d7d8)),
        b"{\"req_type\":\"query\",\"queried_uuid\":\"a1a2a3a4-b1b2-c1c2-d1d2-d3d4d5d6d7d8\"}"
            .to_vec()
    );
}

#[test]
fn server_lookup_uuid_keeps_the_address() {
    let mut client = Client::build(50001);
    assert_eq!(client.server_lookup_uuid(peer(5), &found(peer(5), 50005)).unwrap(), address(50005));
    assert_eq!(client.resolve(peer(5)), Some(address(50005)));
    assert_eq!(client.resolve(peer(6)), None);
    assert_eq!(client.peer_map.len(), 1);
}

#[test]
fn server_lookup_uuid_reports_a_peer_that_is_not_on_record() {
    let mut client = Client::build(50001);
    match client.server_lookup_uuid(peer(5), &not_found(peer(5))) {
        Err(ClientError::PeerNotFoundError(message)) => {
            assert_eq!(message, "No peer matching provided UUID")
        }
        other => panic!("unexpected {:?}", other),
    }
    assert_eq!(client.resolve(peer(5)), None);
    assert!(client.peer_map.is_empty());
}

#[test]
fn server_lookup_uuid_refuses_the_answer_to_another_lookup() {
    let mut client = Client::build(50001);
    match client.server_lookup_uuid(peer(5), &found(peer(6), 50006)) {
        Err(ClientError::ServerUnavailableError(message)) => {
            assert_eq!(message, "Invalid response from server")
        }
        other => panic!("unexpected {:?}", other),
    }
    match client.server_lookup_uuid(peer(5), &not_found(peer(6))) {
        Err(ClientError::ServerUnavailableError(message)) => {
            assert_eq!(message, "Invalid response from server")
        }
        other => panic!("unexpected {:?}", other),
    }
    assert!(client.peer_map.is_empty());
}

#[test]
fn server_lookup_uuid_refuses_what_is_no_lookup_response() {
    let mut client = Client::build(50001);
    let datagrams: Vec<Vec<u8>> = vec![
        b"not json".to_vec(),
        b"{}".to_vec(),
        b"{\"address\":\"nil\",\"id\":\"invalid_uuid\"}".to_vec(),
        b"{\"address\":\"somewhere\",\"uuid\":\"00000000-0000-0000-0000-000000000005\"}".to_vec(),
        accepted(peer(5), "OK"),
        message_from(1, 2, "hello"),
    ];
    for datagram in datagrams {
        match client.server_lookup_uuid(peer(5), &datagram) {
            Err(ClientError::ServerUnavailableError(message)) => {
                assert_eq!(message, "Invalid response from server")
            }
            other => panic!("unexpected {:?}", other),
        }
    }
    assert!(client.peer_map.is_empty());
}

#[test]
fn a_later_answer_for_the_same_peer_wins() {
    let mut client = Client::build(50001);
    client.server_lookup_uuid(peer(5), &found(peer(5), 50005)).unwrap();
    client.server_lookup_uuid(peer(5), &found(peer(5), 50055)).unwrap();
    assert_eq!(client.resolve(peer(5)), Some(address(50055)));
    assert_eq!(client.peer_map.len(), 1);
}

#[test]
fn send_message_looks_up_a_peer_it_does_not_know() {
    let client = Client::build(50001);
    match client.send_message(peer(5), "hello", time()) {
        Outgoing::Lookup { peer: asked, to, datagram } => {
            assert_eq!(asked, peer(5));
            assert_eq!(to, address(50000));
            assert_eq!(datagram, client.lookup_request(peer(5)));
        }
        _ => panic!("no lookup"),
    }
}

#[test]
fn send_message_delivers_to_a_peer_it_knows() {
    let mut client = Client::build(50001);
    client.uuid = peer(1);
    client.server_lookup_uuid(peer(5), &found(peer(5), 50005)).unwrap();
    match client.send_message(peer(5), "hello", time()) {
        Outgoing::Deliver { to, datagram } => {
            assert_eq!(to, address(50005));
            let message = Message::decode(&datagram).unwrap();
            assert_eq!(message.dst_uuid, peer(5));
            assert_eq!(message.src_uuid, peer(1));
            assert_eq!(message.data, "hello");
            assert_eq!(message.creation_time.text(), TIME);
        }
        _ => panic!("no delivery"),
    }
}

#[test]
fn a_peer_once_resolved_is_not_looked_up_again() {
    let mut client = Client::build(50001);
    assert!(matches!(client.send_message(peer(5), "one", time()), Outgoing::Lookup { .. }));
    client.server_lookup_uuid(peer(5), &found(peer(5), 50005)).unwrap();
    let mut round = 0;
    while round < 10 {
        assert!(matches!(client.send_message(peer(5), "more", time()), Outgoing::Deliver { .. }));
        client.server_lookup_uuid(peer(100 + round), &found(peer(100 + round), 50100)).unwrap();
        let _ = client.server_lookup_uuid(peer(200 + round), &not_found(peer(200 + round)));
        let _ = client.incoming_traff_loop(&message_from(7, 1, "noise"));
        let _ = client.display_loop();
        round += 1;
    }
    assert!(matches!(client.send_message(peer(5), "last", time()), Outgoing::Deliver { .. }));
    assert_eq!(client.resolve(peer(5)), Some(address(50005)));
}

#[test]
fn outgoing_traff_loop_reads_the_destination_as_typed() {
    let mut client = Client::build(50001);
    client.server_lookup_uuid(peer(5), &found(peer(5), 50005)).unwrap();
    match client.outgoing_traff_loop(
        " 00000000-0000-0000-0000-000000000005 \n",
        "hello\n",
        time(),
    ) {
        Outgoing::Deliver { to, datagram } => {
            assert_eq!(to, address(50005));
            let message = Message::decode(&datagram).unwrap();
            assert_eq!(message.dst_uuid, peer(5));
            assert_eq!(message.data, "hello\n");
        }
        _ => panic!("no delivery"),
    }
    match client.outgoing_traff_loop("00000000 0000 0000 0000 000000000006\n", "x", time()) {
        Outgoing::Lookup { peer: asked, .. } => assert_eq!(asked, peer(6)),
        _ => panic!("no lookup"),
    }
}

#[test]
fn outgoing_traff_loop_refuses_a_destination_that_is_no_identifier() {
    let client = Client::build(50001);
    let lines = vec!["", "\n", "bob\n", "00000000-0000-0000-0000-00000000000\n", "5"];
    for line in lines {
        assert!(matches!(
            client.outgoing_traff_loop(line, "hello", time()),
            Outgoing::InvalidDestination
        ));
    }
}

#[test]
fn incoming_traff_loop_queues_a_message() {
    let mut client = Client::build(50001);
    client.incoming_traff_loop(&message_from(1, 2, "hello")).unwrap();
    assert_eq!(client.recv_queue.len(), 1);
    assert_eq!(client.recv_queue[0].data, "hello");
    assert_eq!(client.recv_queue[0].src_uuid, peer(1));
    assert_eq!(client.recv_queue[0].dst_uuid, peer(2));
}

#[test]
fn incoming_traff_loop_discards_what_is_no_message() {
    let mut client = Client::build(50001);
    client.incoming_traff_loop(&message_from(1, 2, "kept")).unwrap();
    let cases: Vec<(Vec<u8>, DecodeError)> = vec![
        (b"not json".to_vec(), DecodeError::Malformed),
        (Vec::new(), DecodeError::Malformed),
        (vec![0xc0, 0x80], DecodeError::Malformed),
        (b"{}".to_vec(), DecodeError::MissingField(Field::DstUuid)),
        (found(peer(5), 50005), DecodeError::MissingField(Field::DstUuid)),
        (
            b"{\"dst_uuid\":\"x\"}".to_vec(),
            DecodeError::InvalidField(Field::DstUuid, Cause::NotAnIdentifier),
        ),
        (
            b"{\"src_uuid\":\"00000000-0000-0000-0000-000000000001\",\"dst_uuid\":\"00000000-0000-0000-0000-000000000002\",\"data\":\"hello\",\"creation_time\":\"0\"}".to_vec(),
            DecodeError::InvalidField(Field::CreationTime, Cause::NotATimestamp),
        ),
    ];
    for (datagram, expected) in cases {
        match client.incoming_traff_loop(&datagram) {
            Err(MessageError::JsonParseError(cause)) => assert_eq!(cause, expected),
            other => panic!("unexpected {:?}", other),
        }
        assert_eq!(client.recv_queue.len(), 1);
    }
    assert_eq!(client.recv_queue[0].data, "kept");
}

#[test]
fn display_loop_hands_out_messages_in_order_of_arrival() {
    let mut client = Client::build(50001);
    client.incoming_traff_loop(&message_from(1, 2, "first")).unwrap();
    assert!(client.incoming_traff_loop(b"garbage").is_err());
    client.incoming_traff_loop(&message_from(3, 2, "second")).unwrap();
    client.incoming_traff_loop(&message_from(1, 2, "third")).unwrap();
    let shown = client.display_loop();
    assert_eq!(shown.len(), 3);
    assert_eq!(shown[0].data, "first");
    assert_eq!(shown[1].data, "second");
    assert_eq!(shown[1].src_uuid, peer(3));
    assert_eq!(shown[2].data, "third");
    assert!(client.recv_queue.is_empty());
    assert!(client.display_loop().is_empty());
    client.incoming_traff_loop(&message_from(1, 2, "fourth")).unwrap();
    let shown = client.display_loop();
    assert_eq!(shown.len(), 1);
    assert_eq!(shown[0].data, "fourth");
}

#[test]
fn two_peers_register_and_one_sends_hello_to_the_other() {
    let mut server = ServerNode::build(50000).unwrap();
    let mut alice = Client::build(50001);
    let mut bob = Client::build(50002);
    let id_alice = register(&mut alice, &mut server);
    let id_bob = register(&mut bob, &mut server);
    assert_ne!(id_alice, id_bob);
    assert_eq!(alice.uuid, id_alice);
    assert_eq!(bob.uuid, id_bob);

    let request = match alice.send_message(id_bob, "hello", time()) {
        Outgoing::Lookup { peer: asked, to, datagram } => {
            assert_eq!(asked, id_bob);
            assert_eq!(to, server.listening_addr());
            datagram
        }
        _ => panic!("no lookup"),
    };
    let answer = server.handle_request(&request).unwrap().unwrap();
    assert_eq!(alice.server_lookup_uuid(id_bob, &answer).unwrap(), bob.listening_addr);

    let datagram = match alice.send_message(id_bob, "hello", time()) {
        Outgoing::Deliver { to, datagram } => {
            assert_eq!(to, bob.listening_addr);
            datagram
        }
        _ => panic!("no delivery"),
    };
    bob.incoming_traff_loop(&datagram).unwrap();
    let shown = bob.display_loop();
    assert_eq!(shown.len(), 1);
    assert_eq!(shown[0].src_uuid, id_alice);
    assert_eq!(shown[0].dst_uuid, id_bob);
    assert_eq!(shown[0].data, "hello");
    assert_eq!(shown[0].creation_time.text(), TIME);
}

#[test]
fn a_peer_that_never_registered_is_not_found_and_not_cached() {
    let mut server = ServerNode::build(50000).unwrap();
    let mut alice = Client::build(50001);
    register(&mut alice, &mut server);
    let stranger = PeerIdentifier::random();
    let request = match alice.send_message(stranger, "anyone?", time()) {
        Outgoing::Lookup { datagram, .. } => datagram,
        _ => panic!("no lookup"),
    };
    let answer = server.handle_request(&request).unwrap().unwrap();
    match alice.server_lookup_uuid(stranger, &answer) {
        Err(ClientError::PeerNotFoundError(_)) => {}
        other => panic!("unexpected {:?}", other),
    }
    assert_eq!(alice.resolve(stranger), None);
    assert!(alice.peer_map.is_empty());
    assert!(matches!(alice.send_message(stranger, "anyone?", time()), Outgoing::Lookup { .. }));
}

#[test]
fn a_peer_can_write_to_itself() {
    let mut server = ServerNode::build(50000).unwrap();
    let mut alice = Client::build(50001);
    let id = register(&mut alice, &mut server);
    let request = alice.lookup_request(id);
    let answer = server.handle_request(&request).unwrap().unwrap();
    alice.server_lookup_uuid(id, &answer).unwrap();
    match alice.send_message(id, "note", time()) {
        Outgoing::Deliver { to, datagram } => {
            assert_eq!(to, alice.listening_addr);
            alice.incoming_traff_loop(&datagram).unwrap();
        }
        _ => panic!("no delivery"),
    }
    let shown = alice.display_loop();
    assert_eq!(shown.len(), 1);
    assert_eq!(shown[0].src_uuid, id);
    assert_eq!(shown[0].dst_uuid, id);
}

#[test]
fn registration_is_tried_five_times_with_doubling_pauses() {
    assert_eq!(Client::registration_pause(0), Some(0));
    assert_eq!(Client::registration_pause(1), Some(250));
    assert_eq!(Client::registration_pause(2), Some(500));
    assert_eq!(Client::registration_pause(3), Some(1000));
    assert_eq!(Client::registration_pause(4), Some(2000));
    assert_eq!(Client::registration_pause(5), None);
    assert_eq!(Client::registration_pause(6), None);
    assert_eq!(Client::registration_pause(u32::MAX), None);
}

#[test]
fn a_datagram_cut_short_by_the_transport_is_discarded() {
    let mut client = Client::build(50001);
    let mut text = String::new();
    while text.len() < 2000 {
        text.push_str("long ");
    }
    let datagram = message_from(1, 2, &text);
    assert!(datagram.len() > 1024);
    match client.incoming_traff_loop(&datagram[..1024]) {
        Err(MessageError::JsonParseError(cause)) => assert_eq!(cause, DecodeError::Malformed),
        other => panic!("unexpected {:?}", other),
    }
    match client.incoming_traff_loop(&datagram) {
        Err(MessageError::JsonParseError(cause)) => assert_eq!(cause, DecodeError::Malformed),
        other => panic!("unexpected {:?}", other),
    }
    assert!(client.recv_queue.is_empty());
}
