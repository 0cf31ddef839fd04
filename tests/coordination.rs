use p2p_demo::address::{Address, Protocol};
use p2p_demo::client::{Client, ClientAction, RelayProgress};
use p2p_demo::command::{parse_command, peer_or_report, Command};
use p2p_demo::conf::{ClientOpt, Conf, HubOpt, IpAddress};
use p2p_demo::dialer::{should_initiate, DialCoordinator, DialError, DialOutcome};
use p2p_demo::event::{classify, Disposition, Role};
use p2p_demo::event::Disposition::{Fatal, Record, RecordError, Trace};
use p2p_demo::peer::PeerId;
use p2p_demo::pump::{Pump, PumpAction, Wake, PUMP_WINDOW_MICROS};
use p2p_demo::session::{HandshakeStep, RelayHandshake};
use p2p_demo::{Event, Node};
use std::str::FromStr;

fn raw_id(fill: u8) -> Vec<u8> {
    // identity multihash (code 0, 36 bytes) of an ed25519 public key in protobuf form
    let mut bytes = vec![0x00, 0x24, 0x08, 0x01, 0x12, 0x20];
    bytes.extend(std::iter::repeat(fill).take(32));
    bytes
}

fn id_text(fill: u8) -> String {
    libp2p::PeerId::from_bytes(&raw_id(fill)).unwrap().to_base58()
}

fn peer(fill: u8) -> PeerId {
    PeerId { bytes: raw_id(fill) }
}

fn conf(role: &str) -> Conf {
    Conf {
        role: role.to_string(),
        use_ipv6: false,
        hub: HubOpt { listen_port: 4001 },
        client: ClientOpt { hub_ip: IpAddress::V4(0x7f000001), hub_port: 4001 },
    }
}

fn relay_addr(relay: &PeerId) -> Address {
    Address {
        parts: vec![Protocol::Ip4(0x7f000001), Protocol::Tcp(4001), Protocol::P2p(relay.clone())],
    }
}

fn observed() -> Address {
    Address { parts: vec![Protocol::Ip4(0x0a000002), Protocol::Tcp(50000)] }
}

fn registered_client(relay: u8) -> Client {
    registered_client_as(1, relay)
}

fn registered_client_as(local: u8, relay: u8) -> Client {
    let mut c = Client::new(conf("client"), peer(local));
    let reply = c.execute(&format!("relay {}", id_text(relay)));
    assert_eq!(reply.result, Ok(false));
    assert!(matches!(c.relay_step(Event::IdentifySent), RelayProgress::Pending));
    assert!(c.relay_id.is_none());
    match c.relay_step(Event::IdentifyReceived { observed: observed() }) {
        RelayProgress::ListenOn(a) => {
            let mut want = relay_addr(&peer(relay)).parts;
            want.push(Protocol::P2pCircuit);
            assert_eq!(a.parts, want);
        }
        _ => panic!("registration did not complete"),
    }
    assert_eq!(c.relay_id, Some(peer(relay)));
    assert!(c.relay_candidate.is_none());
    c
}

#[test]
fn it_works() {
    let result = 2 + 2;
    assert_eq!(result, 4);
}

#[test]
fn peer_id_text_decodes_to_multihash_bytes() {
    let text = id_text(7);
    let id = PeerId::parse(&text).unwrap();
    assert_eq!(id.bytes, raw_id(7));
    assert_ne!(id.bytes, text.as_bytes().to_vec());
}

#[test]
fn peer_id_garbage_is_rejected() {
    assert!(PeerId::parse("not-a-peer-id").is_err());
    assert!(PeerId::parse("").is_err());
}

#[test]
fn handshake_sent_then_received_binds() {
    let relay = relay_addr(&peer(9));
    let mut h = RelayHandshake::new(relay.clone());
    assert_eq!(h.relay(), &relay);
    assert!(matches!(h.step(Event::IdentifySent), HandshakeStep::Pending));
    match h.step(Event::IdentifyReceived { observed: observed() }) {
        HandshakeStep::Established(b) => {
            assert_eq!(b.relay(), &relay);
            assert_eq!(b.observed(), &observed());
        }
        _ => panic!("expected a binding"),
    }
}

#[test]
fn handshake_received_then_sent_binds() {
    let relay = relay_addr(&peer(9));
    let mut h = RelayHandshake::new(relay.clone());
    assert!(matches!(h.step(Event::IdentifyReceived { observed: observed() }), HandshakeStep::Pending));
    assert!(matches!(h.step(Event::Ping), HandshakeStep::Pending));
    match h.step(Event::IdentifySent) {
        HandshakeStep::Established(b) => {
            assert_eq!(b.relay(), &relay);
            assert_eq!(b.observed(), &observed());
            let mut want = relay.parts.clone();
            want.push(Protocol::P2pCircuit);
            assert_eq!(b.circuit_address().parts, want);
        }
        _ => panic!("expected a binding"),
    }
}

#[test]
fn handshake_one_half_is_not_enough() {
    let mut h = RelayHandshake::new(relay_addr(&peer(9)));
    assert!(matches!(h.step(Event::IdentifySent), HandshakeStep::Pending));
    assert!(matches!(h.step(Event::IdentifySent), HandshakeStep::Pending));
    assert!(matches!(h.step(Event::ConnectionEstablished { peer: peer(9) }), HandshakeStep::Pending));
}

#[test]
fn handshake_dial_error_fails_and_unknown_is_fatal() {
    let mut h = RelayHandshake::new(relay_addr(&peer(9)));
    assert!(matches!(h.step(Event::OutgoingConnectionError { peer: None }), HandshakeStep::Failed));
    let mut h = RelayHandshake::new(relay_addr(&peer(9)));
    assert!(matches!(h.step(Event::Unclassified), HandshakeStep::Fatal));
    assert!(matches!(h.step(Event::RelayClient), HandshakeStep::Fatal));
}

#[test]
fn tie_break_picks_exactly_one_side() {
    let a = peer(1);
    let b = peer(2);
    assert!(should_initiate(&a, &b));
    assert!(!should_initiate(&b, &a));
    let short = PeerId { bytes: vec![1, 2] };
    let long = PeerId { bytes: vec![1, 2, 0] };
    assert!(should_initiate(&short, &long));
    assert!(!should_initiate(&long, &short));
    assert!(!should_initiate(&a, &a));
}

#[test]
fn dial_before_registration_is_refused() {
    let mut c = Client::new(conf("client"), peer(1));
    let reply = c.execute(&format!("dial {}", id_text(5)));
    assert_eq!(reply.result, Err("Relay not found, can't dial peer!".to_string()));
    assert!(reply.action.is_none());
}

#[test]
fn dial_after_registration_goes_through_circuit() {
    let mut c = registered_client(9);
    let reply = c.execute(&format!("dial {}", id_text(5)));
    assert_eq!(reply.result, Ok(false));
    match reply.action {
        Some(ClientAction::Dial(a)) => {
            let mut want = relay_addr(&peer(9)).parts;
            want.push(Protocol::P2pCircuit);
            want.push(Protocol::P2p(peer(5)));
            assert_eq!(a.parts, want);
        }
        _ => panic!("expected a dial"),
    }
}

#[test]
fn duplicate_dial_is_a_no_op_until_resolved() {
    let mut c = registered_client(9);
    let first = c.execute(&format!("d {}", id_text(5)));
    assert!(matches!(first.action, Some(ClientAction::Dial(_))));
    let second = c.execute(&format!("dial {}", id_text(5)));
    assert_eq!(second.result, Ok(false));
    assert!(second.action.is_none());
    c.observe(&Event::OutgoingConnectionError { peer: Some(peer(5)) });
    let third = c.execute(&format!("dial {}", id_text(5)));
    assert!(matches!(third.action, Some(ClientAction::Dial(_))));
}

#[test]
fn coordinator_alone() {
    let mut d = DialCoordinator::new();
    let me = peer(1);
    assert!(matches!(d.dial(&me, &peer(3)), Err(DialError::NoRelay)));
    assert!(d.binding().is_none());
    let mut h = RelayHandshake::new(relay_addr(&peer(9)));
    h.step(Event::IdentifySent);
    let b = match h.step(Event::IdentifyReceived { observed: observed() }) {
        HandshakeStep::Established(b) => b,
        _ => panic!("expected a binding"),
    };
    d.set_binding(b);
    assert!(matches!(d.dial(&me, &peer(3)), Ok(DialOutcome::Dial(_))));
    assert!(matches!(d.dial(&me, &peer(3)), Ok(DialOutcome::AlreadyPending)));
    assert!(matches!(d.dial(&me, &peer(4)), Ok(DialOutcome::Dial(_))));
    d.observe(&Event::ConnectionEstablished { peer: peer(3) });
    assert!(matches!(d.dial(&me, &peer(3)), Ok(DialOutcome::Dial(_))));
    assert!(matches!(d.dial(&me, &peer(4)), Ok(DialOutcome::AlreadyPending)));
    assert!(matches!(d.dial(&peer(8), &peer(6)), Ok(DialOutcome::Dial(_))));
    d.observe(&Event::IncomingConnection { peer: Some(peer(7)) });
    assert!(matches!(d.dial(&peer(8), &peer(7)), Ok(DialOutcome::Yield)));
    d.observe(&Event::IncomingConnectionError { peer: Some(peer(7)) });
    assert!(matches!(d.dial(&peer(8), &peer(7)), Ok(DialOutcome::Dial(_))));
    d.abandon(&peer(4));
    assert!(matches!(d.dial(&me, &peer(4)), Ok(DialOutcome::Dial(_))));
}

#[test]
fn execute_quit_and_blank() {
    let mut c = Client::new(conf("client"), peer(1));
    assert_eq!(c.execute("quit").result, Ok(true));
    assert_eq!(c.execute("  q  ").result, Ok(true));
    assert_eq!(c.execute("").result, Ok(false));
    assert_eq!(c.execute(" \t ").result, Ok(false));
}

#[test]
fn execute_reports_bad_input() {
    let mut c = Client::new(conf("client"), peer(1));
    assert_eq!(c.execute("hello").result, Err("Command invalid!".to_string()));
    assert_eq!(c.execute("dial").result, Err("Please input peerid as the second param.".to_string()));
    assert_eq!(c.execute("relay   ").result, Err("Please input peerid as the second param.".to_string()));
    match c.execute("dial 12D3Koo-not-valid").result {
        Err(m) => assert!(m.ends_with(" - PeerId invalid!")),
        Ok(_) => panic!("expected an error"),
    }
    assert!(c.relay_id.is_none());
    assert!(c.handshake.is_none());
}

#[test]
fn relay_command_starts_registration() {
    let mut c = Client::new(conf("client"), peer(1));
    let reply = c.execute(&format!("r {}", id_text(9)));
    assert_eq!(reply.result, Ok(false));
    match reply.action {
        Some(ClientAction::Register(a)) => assert_eq!(a, relay_addr(&peer(9))),
        _ => panic!("expected a registration"),
    }
    assert!(c.relay_id.is_none());
    assert_eq!(c.relay_candidate, Some(peer(9)));
    assert!(matches!(c.relay_step(Event::OutgoingConnectionError { peer: None }), RelayProgress::Failed));
    assert!(c.relay_id.is_none());
    assert!(c.relay_candidate.is_none());
    assert!(matches!(c.relay_step(Event::IdentifySent), RelayProgress::Idle));
}

#[test]
fn parse_command_words() {
    assert!(matches!(parse_command("  quit extra"), Ok(Command::Quit)));
    match parse_command(&format!("dial\t{}  trailing", id_text(5))) {
        Ok(Command::Dial(p)) => assert_eq!(p, peer(5)),
        _ => panic!("expected a dial"),
    }
    match parse_command(&format!("relay {}", id_text(9))) {
        Ok(Command::Relay(p)) => assert_eq!(p, peer(9)),
        _ => panic!("expected a relay"),
    }
    assert!(matches!(parse_command("dialx"), Err(_)));
}

#[test]
fn classification_by_role() {
    let all = vec![
        Event::NewListenAddr { address: observed() },
        Event::ExpiredListenAddr { address: observed() },
        Event::ExternalAddress,
        Event::ListenerClosed,
        Event::ListenerError,
        Event::Dialing { peer: None },
        Event::ConnectionEstablished { peer: peer(1) },
        Event::ConnectionClosed { peer: peer(1) },
        Event::IncomingConnection { peer: None },
        Event::IncomingConnectionError { peer: None },
        Event::OutgoingConnectionError { peer: None },
        Event::Ping,
        Event::IdentifySent,
        Event::IdentifyReceived { observed: observed() },
        Event::Identify,
        Event::Relay,
        Event::RelayClient,
        Event::HolePunch,
        Event::Unclassified,
    ];
    let hub: Vec<Disposition> = all.iter().map(|e| classify(Role::Hub, e)).collect();
    let client: Vec<Disposition> = all.iter().map(|e| classify(Role::Client, e)).collect();
    assert_eq!(
        hub,
        vec![Record, Record, Record, RecordError, RecordError, Record, Record, Record, Trace, RecordError,
            RecordError, Trace, Trace, Trace, Trace, Record, Fatal, Fatal, Fatal]
    );
    assert_eq!(
        client,
        vec![Record, Record, Record, RecordError, RecordError, Record, Record, Record, Trace, RecordError,
            RecordError, Trace, Trace, Trace, Trace, Fatal, Record, Record, Fatal]
    );
}

#[test]
fn pump_holds_only_within_its_window() {
    let p = Pump::window(Role::Client, 1000, PUMP_WINDOW_MICROS);
    assert_eq!(p.on_wake(1050, &Wake::Event(Event::Ping)), PumpAction::Continue(Disposition::Trace));
    assert_eq!(p.on_wake(1099, &Wake::Event(Event::ListenerError)), PumpAction::Continue(Disposition::RecordError));
    assert_eq!(p.on_wake(1100, &Wake::Event(Event::Ping)), PumpAction::Finish(Disposition::Trace));
    assert_eq!(p.on_wake(1050, &Wake::Timer), PumpAction::Release);
    assert_eq!(p.on_wake(1050, &Wake::Event(Event::Unclassified)), PumpAction::Abort);
    assert_eq!(p.on_wake(1050, &Wake::Event(Event::Relay)), PumpAction::Abort);
}

#[test]
fn bind_wait_ends_at_first_listen_address() {
    let node = Node::new(conf("hub"), peer(1));
    let p = node.bind(0);
    assert_eq!(p.max_duration, 1000000);
    assert_eq!(p.on_wake(10, &Wake::Event(Event::IncomingConnection { peer: None })), PumpAction::Continue(Disposition::Trace));
    assert_eq!(
        p.on_wake(10, &Wake::Event(Event::NewListenAddr { address: observed() })),
        PumpAction::Finish(Disposition::Record)
    );
    assert_eq!(node.wait(5).max_duration, 100);
}

#[test]
fn node_roles_and_addresses() {
    let hub = Node::new(conf(" hub\n"), peer(1));
    assert_eq!(hub.role(), Role::Hub);
    assert_eq!(hub.bind_address().parts, vec![Protocol::Ip4(0), Protocol::Tcp(4001)]);
    assert_eq!(conf(" hub\n").get_bind_port(), 4001);
    assert_eq!(conf(" client ").get_relay_address(&peer(9)), Some(relay_addr(&peer(9))));
    assert_eq!(hub.get_peer_id(), &peer(1));
    assert_eq!(Role::parse("client"), Some(Role::Client));
    assert_eq!(Role::parse("  "), None);
    assert_eq!(Role::parse("hubs"), None);
    let hub = Node::new(conf("hub"), peer(1));
    assert_eq!(hub.bind_address().parts, vec![Protocol::Ip4(0), Protocol::Tcp(4001)]);
    let mut client = Node::new(conf("client"), peer(2));
    assert_eq!(client.role(), Role::Client);
    assert_eq!(client.bind_address().parts, vec![Protocol::Ip4(0), Protocol::Tcp(0)]);
    assert_eq!(client.execute("q").result, Ok(true));
}

#[test]
fn conf_ports_and_relay_address() {
    let c = conf("client");
    assert_eq!(c.get_bind_port(), 0);
    assert_eq!(c.get_relay_address(&peer(9)), Some(relay_addr(&peer(9))));
    let h = conf("hub");
    assert_eq!(h.get_bind_port(), 4001);
    assert_eq!(h.get_relay_address(&peer(9)), None);
    let mut v6 = conf("hub");
    v6.use_ipv6 = true;
    assert_eq!(v6.bind_address(Role::Hub).parts, vec![Protocol::Ip6(0), Protocol::Tcp(4001)]);
}

#[test]
fn decoding_failure_is_marked_invalid() {
    assert_eq!(peer_or_report(Ok(peer(3))), Ok(peer(3)));
    assert_eq!(
        peer_or_report(Err("bad digit".to_string())),
        Err("bad digit - PeerId invalid!".to_string())
    );
}

#[test]
fn larger_id_dials_when_uncontested() {
    let mut c = registered_client_as(7, 9);
    let reply = c.execute(&format!("dial {}", id_text(5)));
    assert_eq!(reply.result, Ok(false));
    match reply.action {
        Some(ClientAction::Dial(a)) => {
            let mut want = relay_addr(&peer(9)).parts;
            want.push(Protocol::P2pCircuit);
            want.push(Protocol::P2p(peer(5)));
            assert_eq!(a.parts, want);
        }
        _ => panic!("expected a dial"),
    }
}

#[test]
fn larger_id_waits_when_the_peer_is_dialing_it() {
    let mut c = registered_client_as(7, 9);
    c.observe(&Event::IncomingConnection { peer: Some(peer(5)) });
    let reply = c.execute(&format!("dial {}", id_text(5)));
    assert_eq!(reply.result, Ok(false));
    assert!(reply.action.is_none());
    c.observe(&Event::ConnectionEstablished { peer: peer(5) });
    assert!(matches!(c.execute(&format!("dial {}", id_text(5))).action, Some(ClientAction::Dial(_))));
}

#[test]
fn mutual_dial_issues_exactly_one() {
    let mut a = registered_client_as(2, 9);
    let mut b = registered_client_as(6, 9);
    a.observe(&Event::IncomingConnection { peer: Some(peer(6)) });
    b.observe(&Event::IncomingConnection { peer: Some(peer(2)) });
    let from_a = a.execute(&format!("dial {}", id_text(6)));
    let from_b = b.execute(&format!("dial {}", id_text(2)));
    assert!(matches!(from_a.action, Some(ClientAction::Dial(_))));
    assert!(from_b.action.is_none());
    assert_eq!(from_b.result, Ok(false));
}

#[test]
fn refused_dial_can_be_retried() {
    let mut c = registered_client(9);
    assert!(matches!(c.execute(&format!("dial {}", id_text(5))).action, Some(ClientAction::Dial(_))));
    assert!(c.execute(&format!("dial {}", id_text(5))).action.is_none());
    c.abandon_dial(&peer(5));
    assert!(matches!(c.execute(&format!("dial {}", id_text(5))).action, Some(ClientAction::Dial(_))));
}

#[test]
fn bad_peer_message_keeps_decoder_text() {
    let mut c = Client::new(conf("client"), peer(1));
    let text = "12D3Koo-not-valid";
    let why = match libp2p::PeerId::from_str(text) {
        Err(e) => e.to_string(),
        Ok(_) => panic!("expected a decoding error"),
    };
    assert_eq!(c.execute(&format!("dial {}", text)).result, Err(format!("{} - PeerId invalid!", why)));
}

#[test]
fn relay_then_relay_peer() {
    let mut c = Client::new(conf("client"), peer(1));
    assert_eq!(c.relay_peer(&peer(5)), Err("Relay not found, can't dial peer!".to_string()));
    let relay = c.relay(peer(9));
    assert_eq!(relay, relay_addr(&peer(9)));
    assert!(c.relay_id.is_none());
    assert!(matches!(c.relay_step(Event::IdentifyReceived { observed: observed() }), RelayProgress::Pending));
    assert!(matches!(c.relay_step(Event::Dialing { peer: None }), RelayProgress::Pending));
    assert!(matches!(c.relay_step(Event::IdentifySent), RelayProgress::ListenOn(_)));
    let mut want = relay_addr(&peer(9)).parts;
    want.push(Protocol::P2pCircuit);
    want.push(Protocol::P2p(peer(5)));
    assert_eq!(c.relay_peer(&peer(5)), Ok(Some(Address { parts: want })));
    assert_eq!(c.relay_peer(&peer(5)), Ok(None));
}
