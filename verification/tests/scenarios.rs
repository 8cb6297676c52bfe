use futures::Async;
use futures::AsyncSink;
use packet_dialogue::Client;
use packet_dialogue::ClosedDialogue;
use packet_dialogue::Dialogue;
use packet_dialogue::Frame;
use packet_dialogue::PacketReadable;
use packet_dialogue::PacketType;
use packet_dialogue::Role;
use packet_dialogue::Server;
use packet_dialogue::SubStreamError;

type Packet = Frame<&'static str>;
type Side<R> = Dialogue<Packet, &'static str, R>;

/// Hands the packets staged by `from` to `to`, oldest first, until `to`
/// hands one to its application, which is returned, or none is left.
fn carry<A: Role, B: Role>(from: &mut Side<A>, to: &mut Side<B>) -> Option<Packet> {
    while let Some(packet) = from.next_outgoing() {
        if let Some(fresh) = to.dispatch(packet).expect("the peer keeps to the protocol") {
            return Some(fresh);
        }
    }
    None
}

#[test]
fn request_is_answered_with_the_peers_data() {
    let mut client: Side<Client> = Dialogue::new();
    let mut server: Side<Server> = Dialogue::new();

    let mut response = client.request("D1");
    assert_eq!(response.poll(&mut client), Ok(Async::NotReady));

    let packet = carry(&mut client, &mut server).expect("the request arrives");
    assert_eq!(packet.get_type(), PacketType::Request);
    assert_eq!(packet.get_id(), 1);
    let request = server.packet_as_request(packet);
    assert_eq!(request.get_data(), "D1");
    assert!(matches!(request.start_responding(&mut server, "D2"), Ok(AsyncSink::Ready)));

    assert_eq!(carry(&mut server, &mut client), None);
    assert_eq!(response.poll(&mut client), Ok(Async::Ready(Some("D2"))));
    assert!(!client.is_tracked(1));
    assert!(!server.is_tracked(1));
    assert_eq!(response.poll(&mut client), Ok(Async::NotReady));
}

#[test]
fn duplex_delivers_items_in_order_and_completes_when_both_close() {
    let mut client: Side<Client> = Dialogue::new();
    let mut server: Side<Server> = Dialogue::new();

    let ours = client.sub_duplex("open");
    assert_eq!(ours.start_send(&mut client, "A"), Ok(AsyncSink::Ready));
    assert_eq!(ours.start_send(&mut client, "B"), Ok(AsyncSink::Ready));
    assert_eq!(ours.close(&mut client), Ok(Async::Ready(())));

    let opening = carry(&mut client, &mut server).expect("the opening arrives");
    assert_eq!(opening, Frame { id: 1, packet_type: PacketType::DuplexInitial, data: Some("open") });
    let theirs = server.packet_as_sub_duplex(opening);
    assert_eq!(carry(&mut client, &mut server), None);

    assert_eq!(theirs.poll(&mut server), Ok(Async::Ready(Some("A"))));
    assert_eq!(theirs.poll(&mut server), Ok(Async::Ready(Some("B"))));
    assert_eq!(theirs.poll(&mut server), Ok(Async::Ready(None)));

    // The peer's direction is still open: it can send, and we receive.
    assert_eq!(ours.poll(&mut client), Ok(Async::NotReady));
    assert_eq!(theirs.start_send(&mut server, "C"), Ok(AsyncSink::Ready));
    assert_eq!(theirs.close(&mut server), Ok(Async::Ready(())));
    assert_eq!(carry(&mut server, &mut client), None);
    assert_eq!(ours.poll(&mut client), Ok(Async::Ready(Some("C"))));
    assert_eq!(ours.poll(&mut client), Ok(Async::Ready(None)));

    // Both directions are closed: nothing more can be sent on either side.
    assert_eq!(ours.start_send(&mut client, "late"), Err(ClosedDialogue));
    assert_eq!(theirs.start_send(&mut server, "late"), Err(ClosedDialogue));
    ours.release(&mut client);
    theirs.release(&mut server);
    assert!(!client.is_tracked(1));
    assert!(!server.is_tracked(1));
    assert_eq!(client.next_outgoing(), None);
    assert_eq!(server.next_outgoing(), None);
}

#[test]
fn abort_with_error_reaches_the_peer_without_the_unsent_data() {
    let mut client: Side<Client> = Dialogue::new();
    let mut server: Side<Server> = Dialogue::new();

    let ours = client.sub_duplex("open");
    let opening = carry(&mut client, &mut server).expect("the opening arrives");
    let theirs = server.packet_as_sub_duplex(opening);

    assert_eq!(ours.start_send(&mut client, "unsent"), Ok(AsyncSink::Ready));
    assert_eq!(ours.abort_error(&mut client, "E"), Ok(Async::Ready(())));
    assert_eq!(ours.start_send(&mut client, "late"), Err(ClosedDialogue));

    assert_eq!(carry(&mut client, &mut server), None);
    assert_eq!(theirs.poll(&mut server), Err(SubStreamError::EndWithError("E")));
    assert_eq!(theirs.poll(&mut server), Ok(Async::Ready(None)));
}

#[test]
fn closing_the_dialogue_fails_an_outstanding_request() {
    let mut client: Side<Client> = Dialogue::new();
    let mut response = client.request("D1");
    assert_eq!(response.poll(&mut client), Ok(Async::NotReady));
    client.close();
    assert!(client.is_closed());
    assert_eq!(response.poll(&mut client), Err(ClosedDialogue));
    assert_eq!(response.poll(&mut client), Err(ClosedDialogue));
}
