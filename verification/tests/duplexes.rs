use futures::Async;
use futures::AsyncSink;
use packet_dialogue::Client;
use packet_dialogue::ClosedDialogue;
use packet_dialogue::Dialogue;
use packet_dialogue::Frame;
use packet_dialogue::InSubDuplex;
use packet_dialogue::OutSubDuplex;
use packet_dialogue::PacketType;
use packet_dialogue::ProtocolViolation;
use packet_dialogue::Server;
use packet_dialogue::SubDuplex;
use packet_dialogue::SubDuplexType;
use packet_dialogue::SubStreamError;

type Packet = Frame<u32>;

fn packet(id: u32, packet_type: PacketType, data: Option<u32>) -> Packet {
    Frame { id, packet_type, data }
}

/// A server with the duplex that its peer opened under id 1.
fn accepted() -> (Dialogue<Packet, u32, Server>, SubDuplex<InSubDuplex>) {
    let mut server: Dialogue<Packet, u32, Server> = Dialogue::new();
    let opening = server
        .dispatch(packet(1, PacketType::DuplexInitial, Some(0)))
        .expect("no violation")
        .expect("a fresh duplex");
    let duplex = server.packet_as_sub_duplex(opening);
    (server, duplex)
}

/// A client with the duplex that it opened under id 1, the opening sent.
fn opened() -> (Dialogue<Packet, u32, Client>, SubDuplex<OutSubDuplex>) {
    let mut client: Dialogue<Packet, u32, Client> = Dialogue::new();
    let duplex = client.sub_duplex(0);
    assert_eq!(client.next_outgoing(), Some(packet(1, PacketType::DuplexInitial, Some(0))));
    (client, duplex)
}

#[test]
fn duplex_kinds_say_which_side_opened() {
    assert!(OutSubDuplex::is_out());
    assert!(!InSubDuplex::is_out());
}

#[test]
fn opener_sends_duplex_requests_and_acceptor_duplex_responses() {
    let (mut client, ours) = opened();
    assert_eq!(ours.start_send(&mut client, 7), Ok(AsyncSink::Ready));
    assert_eq!(ours.close(&mut client), Ok(Async::Ready(())));
    assert_eq!(client.next_outgoing(), Some(packet(1, PacketType::DuplexRequest, Some(7))));
    assert_eq!(client.next_outgoing(), Some(packet(1, PacketType::DuplexRequestEnd, None)));
    assert_eq!(client.next_outgoing(), None);

    let (mut server, theirs) = accepted();
    assert_eq!(theirs.start_send(&mut server, 8), Ok(AsyncSink::Ready));
    assert_eq!(theirs.close_error(&mut server, 9), Ok(Async::Ready(())));
    assert_eq!(server.next_outgoing(), Some(packet(1, PacketType::DuplexResponse, Some(8))));
    assert_eq!(server.next_outgoing(), Some(packet(1, PacketType::DuplexResponseEnd, Some(9))));
    assert_eq!(server.next_outgoing(), None);
}

#[test]
fn items_are_received_before_the_end() {
    let (mut server, theirs) = accepted();
    assert_eq!(theirs.poll(&mut server), Ok(Async::NotReady));
    assert_eq!(server.dispatch(packet(1, PacketType::DuplexRequest, Some(10))), Ok(None));
    assert_eq!(server.dispatch(packet(1, PacketType::DuplexRequest, Some(20))), Ok(None));
    assert_eq!(server.dispatch(packet(1, PacketType::DuplexRequestEnd, Some(99))), Ok(None));
    assert_eq!(theirs.poll(&mut server), Ok(Async::Ready(Some(10))));
    assert_eq!(theirs.poll(&mut server), Ok(Async::Ready(Some(20))));
    assert_eq!(theirs.poll(&mut server), Err(SubStreamError::EndWithError(99)));
    assert_eq!(theirs.poll(&mut server), Ok(Async::Ready(None)));
}

#[test]
fn closing_twice_stages_one_end() {
    let (mut client, ours) = opened();
    assert_eq!(ours.close(&mut client), Ok(Async::Ready(())));
    assert_eq!(ours.close(&mut client), Ok(Async::Ready(())));
    assert_eq!(ours.close_error(&mut client, 5), Ok(Async::Ready(())));
    assert_eq!(client.next_outgoing(), Some(packet(1, PacketType::DuplexRequestEnd, None)));
    assert_eq!(client.next_outgoing(), None);
    assert_eq!(ours.start_send(&mut client, 1), Err(ClosedDialogue));
}

#[test]
fn abort_drops_the_staged_items_of_that_duplex_only() {
    let mut client: Dialogue<Packet, u32, Client> = Dialogue::new();
    let first = client.sub_duplex(0);
    let second = client.sub_duplex(0);
    assert_eq!(first.start_send(&mut client, 11), Ok(AsyncSink::Ready));
    assert_eq!(second.start_send(&mut client, 21), Ok(AsyncSink::Ready));
    assert_eq!(client.message(5), Ok(AsyncSink::Ready));
    assert_eq!(first.start_send(&mut client, 12), Ok(AsyncSink::Ready));
    assert_eq!(first.abort(&mut client), Ok(Async::Ready(())));

    assert_eq!(client.next_outgoing(), Some(packet(1, PacketType::DuplexInitial, Some(0))));
    assert_eq!(client.next_outgoing(), Some(packet(3, PacketType::DuplexInitial, Some(0))));
    assert_eq!(client.next_outgoing(), Some(packet(3, PacketType::DuplexRequest, Some(21))));
    assert_eq!(client.next_outgoing(), Some(packet(0, PacketType::Message, Some(5))));
    assert_eq!(client.next_outgoing(), Some(packet(1, PacketType::DuplexRequestEnd, None)));
    assert_eq!(client.next_outgoing(), None);

    assert_eq!(first.start_send(&mut client, 13), Err(ClosedDialogue));
    assert_eq!(client.next_outgoing(), None);
    assert_eq!(second.start_send(&mut client, 22), Ok(AsyncSink::Ready));
}

#[test]
fn abort_discards_what_has_arrived_and_what_arrives() {
    let (mut server, theirs) = accepted();
    assert_eq!(server.dispatch(packet(1, PacketType::DuplexRequest, Some(10))), Ok(None));
    assert_eq!(theirs.abort(&mut server), Ok(Async::Ready(())));
    assert_eq!(theirs.poll(&mut server), Ok(Async::Ready(None)));
    assert_eq!(server.dispatch(packet(1, PacketType::DuplexRequest, Some(20))), Ok(None));
    assert_eq!(theirs.poll(&mut server), Ok(Async::Ready(None)));
    assert_eq!(server.next_outgoing(), Some(packet(1, PacketType::DuplexResponseEnd, None)));
    assert_eq!(server.next_outgoing(), None);
    // Aborting again, or closing, stages nothing more.
    assert_eq!(theirs.abort_error(&mut server, 3), Ok(Async::Ready(())));
    assert_eq!(theirs.close(&mut server), Ok(Async::Ready(())));
    assert_eq!(server.next_outgoing(), None);
}

#[test]
fn abort_after_close_keeps_the_end_and_drops_the_items() {
    let (mut client, ours) = opened();
    assert_eq!(ours.start_send(&mut client, 1), Ok(AsyncSink::Ready));
    assert_eq!(ours.close_error(&mut client, 2), Ok(Async::Ready(())));
    assert_eq!(ours.abort_error(&mut client, 3), Ok(Async::Ready(())));
    assert_eq!(client.next_outgoing(), Some(packet(1, PacketType::DuplexRequestEnd, Some(2))));
    assert_eq!(client.next_outgoing(), None);
}

#[test]
fn released_duplex_stays_behind_until_the_peer_ends() {
    let (mut server, theirs) = accepted();
    theirs.release(&mut server);
    assert_eq!(server.next_outgoing(), Some(packet(1, PacketType::DuplexResponseEnd, None)));
    assert!(server.is_tracked(1));
    // What the peer still sends is discarded.
    assert_eq!(server.dispatch(packet(1, PacketType::DuplexRequest, Some(10))), Ok(None));
    assert!(server.is_tracked(1));
    assert_eq!(server.dispatch(packet(1, PacketType::DuplexRequestEnd, None)), Ok(None));
    assert!(!server.is_tracked(1));
    assert!(!server.is_closed());
    // The id can open a duplex again.
    let again = server
        .dispatch(packet(1, PacketType::DuplexInitial, Some(0)))
        .expect("no violation");
    assert_eq!(again, Some(packet(1, PacketType::DuplexInitial, Some(0))));
}

#[test]
fn released_duplex_is_forgotten_at_once_when_the_peer_has_ended() {
    let (mut server, theirs) = accepted();
    assert_eq!(server.dispatch(packet(1, PacketType::DuplexRequestEnd, None)), Ok(None));
    assert_eq!(theirs.start_send(&mut server, 4), Ok(AsyncSink::Ready));
    theirs.release(&mut server);
    assert!(!server.is_tracked(1));
    // Releasing aborts: the staged item is dropped, the end is sent.
    assert_eq!(server.next_outgoing(), Some(packet(1, PacketType::DuplexResponseEnd, None)));
    assert_eq!(server.next_outgoing(), None);
}

#[test]
fn duplex_of_a_closed_dialogue_reports_it() {
    let (mut client, ours) = opened();
    client.close();
    assert_eq!(ours.start_send(&mut client, 1), Err(ClosedDialogue));
    assert_eq!(ours.close(&mut client), Err(ClosedDialogue));
    assert_eq!(ours.close_error(&mut client, 1), Err(ClosedDialogue));
    assert_eq!(ours.abort(&mut client), Err(ClosedDialogue));
    assert_eq!(ours.abort_error(&mut client, 1), Err(ClosedDialogue));
    assert_eq!(ours.poll(&mut client), Err(SubStreamError::ClosedDialogue));
    ours.release(&mut client);
    assert_eq!(client.next_outgoing(), None);

    let late = client.sub_duplex(1);
    assert_eq!(client.next_outgoing(), None);
    assert_eq!(late.poll(&mut client), Err(SubStreamError::ClosedDialogue));
}

#[test]
fn item_after_the_end_is_a_violation() {
    let (mut server, _theirs) = accepted();
    assert_eq!(server.dispatch(packet(1, PacketType::DuplexRequestEnd, None)), Ok(None));
    assert_eq!(
        server.dispatch(packet(1, PacketType::DuplexRequest, Some(1))),
        Err(ProtocolViolation::UnexpectedPacket)
    );
    assert!(server.is_closed());
}

#[test]
fn item_from_the_wrong_side_is_a_violation() {
    let (mut server, _theirs) = accepted();
    assert_eq!(
        server.dispatch(packet(1, PacketType::DuplexResponse, Some(1))),
        Err(ProtocolViolation::UnexpectedPacket)
    );
    assert!(server.is_closed());
}

#[test]
fn item_without_data_is_a_violation() {
    let (mut server, _theirs) = accepted();
    assert_eq!(
        server.dispatch(packet(1, PacketType::DuplexRequest, None)),
        Err(ProtocolViolation::UnexpectedPacket)
    );
}

#[test]
fn item_of_an_unknown_duplex_is_a_violation() {
    let mut server: Dialogue<Packet, u32, Server> = Dialogue::new();
    assert_eq!(
        server.dispatch(packet(1, PacketType::DuplexRequest, Some(1))),
        Err(ProtocolViolation::UnknownId)
    );
    let mut client: Dialogue<Packet, u32, Client> = Dialogue::new();
    assert_eq!(
        client.dispatch(packet(1, PacketType::DuplexResponseEnd, None)),
        Err(ProtocolViolation::UnknownId)
    );
}
