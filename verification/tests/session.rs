use atem_rs::command::{Command, Error as CommandError};
use atem_rs::packet::{Packet, PacketFlag};
use atem_rs::session::{Action, Session, State};
use atem_rs::systeminfo::{PowerState, Version};
use atem_rs::{Error, Message};
use bytes::{Bytes, BytesMut};

fn server_packet(flags: u8, uid: u16, id: u16, payload: &[u8]) -> Packet {
    let payload = if payload.is_empty() { None } else { Some(Bytes::from(payload.to_vec())) };
    Packet::new(Some(PacketFlag::from_bits_retain(flags)), uid, 0, id, payload)
}

fn version_record() -> Vec<u8> {
    vec![0x00u8, 0x0C, 0x00, 0x00, b'_', b'v', b'e', b'r', 0x00, 0x02, 0x00, 0x1C]
}

fn open_session() -> Session {
    let mut session = Session::new();
    let _ = session.open();
    session
}

#[test]
fn new_session_has_sent_nothing() {
    let session = Session::new();
    assert_eq!(session.state(), State::Init);
    assert_eq!(session.next_client_id(), 0);
    assert!(!session.hello_sent());
    assert_eq!(session.uid(), None);
}

#[test]
fn open_sends_hello_and_reports_connected() {
    let mut session = Session::new();
    let actions = session.open();
    assert_eq!(actions.len(), 2);
    match &actions[0] {
        Action::Send(p) => {
            assert_eq!(
                p.serialize().to_vec(),
                vec![
                    0x10u8, 0x14, 0x13, 0x37, 0x00, 0x00, 0x00, 0x00, 0x00, 0x00, 0x00, 0x00,
                    0x01, 0x00, 0x00, 0x00, 0x00, 0x00, 0x00, 0x00
                ]
            );
        }
        other => panic!("hello expected, got {:?}", other),
    }
    assert!(matches!(actions[1], Action::Publish(Message::Connected)));
    assert_eq!(session.state(), State::Open);
    assert!(session.hello_sent());
    assert_eq!(session.next_client_id(), 0);
}

#[test]
fn hello_handshake() {
    let mut session = Session::new();
    let opening = session.open();
    assert!(matches!(opening[1], Action::Publish(Message::Connected)));

    // flags=HELLO, size=12, uid=0xBEEF, id=7, no payload
    let mut datagram =
        Bytes::from(vec![0x10u8, 0x0C, 0xBE, 0xEF, 0x00, 0x00, 0x00, 0x00, 0x00, 0x00, 0x00, 0x07]);
    let actions = session.on_datagram(&mut datagram);

    assert_eq!(actions.len(), 1);
    match &actions[0] {
        Action::Send(ack) => {
            assert_eq!(*ack, Packet::new_ack(0xBEEF, 7, 0));
            assert_eq!(ack.flags().map(|f| f.bits()), Some(PacketFlag::ACK));
            assert_eq!(ack.serialize().len(), 12);
            assert_eq!(ack.uid(), 0xBEEF);
            assert_eq!(ack.ack_id(), 7);
            assert_eq!(ack.id(), 0);
            assert_eq!(
                ack.serialize().to_vec(),
                vec![0x80u8, 0x0C, 0xBE, 0xEF, 0x00, 0x07, 0x00, 0x00, 0x00, 0x00, 0x00, 0x00]
            );
        }
        other => panic!("ack expected, got {:?}", other),
    }
    assert!(datagram.is_empty());
    assert_eq!(session.next_client_id(), 0);
    assert_eq!(session.uid(), Some(0xBEEF));
}

#[test]
fn hello_packet_is_acknowledged_as_packet_zero() {
    let mut session = open_session();
    let hello = server_packet(PacketFlag::HELLO, 0xBEEF, 7, &[]);
    let actions = session.handle_packet(&hello);
    assert_eq!(actions.len(), 1);
    match &actions[0] {
        Action::Send(ack) => assert_eq!(*ack, Packet::new_ack(0xBEEF, 7, 0)),
        other => panic!("ack expected, got {:?}", other),
    }
    assert_eq!(session.next_client_id(), 0);
}

#[test]
fn hello_with_a_payload_is_not_decoded() {
    let mut session = open_session();
    let hello = server_packet(PacketFlag::HELLO | PacketFlag::ACK_REQUEST, 1, 2, &version_record());
    let reply = session.on_packet(&hello);
    assert_eq!(reply.ack, Some(Packet::new_ack(1, 2, 0)));
    assert!(!reply.decode);
    assert_eq!(session.next_client_id(), 0);
}

#[test]
fn acked_data_packet() {
    let mut session = open_session();
    // flags=ACK_REQUEST, size=24, uid=0xBEEF, id=42, one version record
    let mut datagram = Bytes::from(vec![
        0x08u8, 0x18, 0xBE, 0xEF, 0x00, 0x00, 0x00, 0x00, 0x00, 0x00, 0x00, 0x2A, 0x00, 0x0C,
        0x00, 0x00, b'_', b'v', b'e', b'r', 0x00, 0x02, 0x00, 0x1C,
    ]);

    let actions = session.on_datagram(&mut datagram);

    assert_eq!(actions.len(), 2);
    match &actions[0] {
        Action::Send(ack) => {
            assert_eq!(*ack, Packet::new_ack(0xBEEF, 42, 1));
            assert_eq!(ack.flags().map(|f| f.bits()), Some(PacketFlag::ACK));
        }
        other => panic!("ack expected, got {:?}", other),
    }
    match &actions[1] {
        Action::Publish(Message::Command(c)) => {
            assert_eq!(*c, Command::Version(Version { major: 2, minor: 28 }))
        }
        other => panic!("command expected, got {:?}", other),
    }

    let next = server_packet(PacketFlag::ACK_REQUEST, 0xBEEF, 43, &[]);
    let actions = session.handle_packet(&next);
    assert_eq!(actions.len(), 1);
    match &actions[0] {
        Action::Send(ack) => assert_eq!(*ack, Packet::new_ack(0xBEEF, 43, 2)),
        other => panic!("ack expected, got {:?}", other),
    }
    assert_eq!(session.next_client_id(), 2);
}

#[test]
fn plain_packet_is_decoded_without_ack() {
    let mut session = open_session();
    let packet = server_packet(0, 5, 6, &version_record());
    let reply = session.on_packet(&packet);
    assert_eq!(reply.ack, None);
    assert!(reply.decode);
    assert_eq!(session.next_client_id(), 0);
}

#[test]
fn resend_flag_changes_nothing() {
    let mut session = open_session();
    let packet = server_packet(PacketFlag::RESEND | PacketFlag::ACK_REQUEST, 5, 6, &[]);
    let reply = session.on_packet(&packet);
    assert_eq!(reply.ack, Some(Packet::new_ack(5, 6, 1)));
    assert!(reply.decode);
}

#[test]
fn ack_uses_the_uid_of_each_packet() {
    let mut session = open_session();
    let a = session.on_packet(&server_packet(PacketFlag::ACK_REQUEST, 0x1111, 1, &[]));
    let b = session.on_packet(&server_packet(PacketFlag::ACK_REQUEST, 0x2222, 2, &[]));
    assert_eq!(a.ack, Some(Packet::new_ack(0x1111, 1, 1)));
    assert_eq!(b.ack, Some(Packet::new_ack(0x2222, 2, 2)));
    assert_eq!(session.uid(), Some(0x1111));
}

#[test]
fn unknown_record_is_published_as_a_failure_and_the_rest_follows() {
    let mut session = open_session();
    let mut payload = version_record();
    payload.extend_from_slice(&[0x00, 0x0A, 0x00, 0x00, b'X', b'y', b'Z', b'w', 0xAA, 0xBB]);
    payload.extend_from_slice(&[0x00, 0x09, 0x00, 0x00, b'P', b'o', b'w', b'r', 0x03]);
    let packet = server_packet(0, 1, 1, &payload);

    let actions = session.handle_packet(&packet);

    assert_eq!(actions.len(), 3);
    assert!(matches!(
        &actions[0],
        Action::Publish(Message::Command(Command::Version(Version { major: 2, minor: 28 })))
    ));
    match &actions[1] {
        Action::Publish(Message::ParsingFailed(Error::CommandError(e))) => {
            assert_eq!(*e, CommandError::UnknownCommand("XyZw".to_string()))
        }
        other => panic!("failure expected, got {:?}", other),
    }
    assert!(matches!(
        &actions[2],
        Action::Publish(Message::Command(Command::PowerState(PowerState {
            primary: true,
            secondary: true
        })))
    ));
}

#[test]
fn datagram_with_several_packets_is_handled_in_order() {
    let mut session = open_session();
    let mut datagram = BytesMut::new();
    datagram.extend_from_slice(&server_packet(PacketFlag::HELLO, 9, 1, &[]).serialize());
    datagram.extend_from_slice(
        &server_packet(PacketFlag::ACK_REQUEST, 9, 2, &version_record()).serialize(),
    );
    datagram.extend_from_slice(
        &server_packet(0, 9, 3, &[0x00, 0x09, 0x00, 0x00, b'P', b'o', b'w', b'r', 0x01])
            .serialize(),
    );
    let mut datagram = datagram.freeze();

    let actions = session.on_datagram(&mut datagram);

    assert!(datagram.is_empty());
    assert_eq!(actions.len(), 4);
    match &actions[0] {
        Action::Send(ack) => assert_eq!(*ack, Packet::new_ack(9, 1, 0)),
        other => panic!("ack expected, got {:?}", other),
    }
    match &actions[1] {
        Action::Send(ack) => assert_eq!(*ack, Packet::new_ack(9, 2, 1)),
        other => panic!("ack expected, got {:?}", other),
    }
    assert!(matches!(
        &actions[2],
        Action::Publish(Message::Command(Command::Version(Version { major: 2, minor: 28 })))
    ));
    assert!(matches!(
        &actions[3],
        Action::Publish(Message::Command(Command::PowerState(PowerState {
            primary: true,
            secondary: false
        })))
    ));
    assert_eq!(session.next_client_id(), 1);
}

#[test]
fn datagram_cut_inside_a_packet_reports_it_after_the_whole_ones() {
    let mut session = open_session();
    let mut datagram = BytesMut::new();
    datagram.extend_from_slice(&server_packet(PacketFlag::ACK_REQUEST, 9, 2, &[]).serialize());
    datagram.extend_from_slice(&[0x08, 0x20, 0x00]);
    let mut datagram = datagram.freeze();

    let actions = session.on_datagram(&mut datagram);

    assert!(datagram.is_empty());
    assert_eq!(actions.len(), 2);
    assert!(matches!(&actions[0], Action::Send(_)));
    assert!(matches!(
        &actions[1],
        Action::Publish(Message::ParsingFailed(Error::TruncatedPacket))
    ));
}

#[test]
fn empty_datagram_calls_for_nothing() {
    let mut session = open_session();
    let mut datagram = Bytes::new();
    assert!(session.on_datagram(&mut datagram).is_empty());
}

#[test]
fn packet_without_payload_publishes_nothing() {
    let mut session = open_session();
    let actions = session.handle_packet(&server_packet(0, 1, 1, &[]));
    assert!(actions.is_empty());
}

#[test]
fn session_stops_in_front_of_an_ack_it_cannot_number() {
    let mut session = open_session();
    let request = server_packet(PacketFlag::ACK_REQUEST, 1, 1, &[]);
    for n in 1..=65535u32 {
        assert!(session.can_number_ack());
        let reply = session.on_packet(&request);
        assert_eq!(reply.ack.map(|a| a.id() as u32), Some(n));
    }
    assert_eq!(session.next_client_id(), 65535);
    assert!(!session.can_number_ack());

    let mut datagram = BytesMut::new();
    datagram.extend_from_slice(&server_packet(PacketFlag::HELLO, 1, 2, &[]).serialize());
    datagram.extend_from_slice(&request.serialize());
    let mut datagram = datagram.freeze();
    let actions = session.on_datagram(&mut datagram);

    assert_eq!(actions.len(), 1);
    assert_eq!(datagram.to_vec(), request.serialize().to_vec());
    assert_eq!(session.next_client_id(), 65535);
}

#[test]
fn io_error_closes_the_session() {
    let mut session = open_session();
    let m = session.on_io_error(std::io::Error::new(std::io::ErrorKind::ConnectionReset, "gone"));
    match m {
        Message::Disconnected(Error::SocketError(e)) => {
            assert_eq!(e.kind(), std::io::ErrorKind::ConnectionReset)
        }
        other => panic!("disconnect expected, got {:?}", other),
    }
    assert_eq!(session.state(), State::Closed);
}

#[test]
fn errors_convert_into_the_session_error() {
    let e = Error::from(CommandError::Truncated);
    assert!(matches!(e, Error::CommandError(CommandError::Truncated)));
    let e = Error::from(std::io::Error::new(std::io::ErrorKind::Other, "x"));
    assert!(matches!(e, Error::SocketError(_)));
}
